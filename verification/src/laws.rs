use vstd::prelude::*;

use crate::auth::{
    id_fits, lemma_matching_indices_complete, lemma_matching_indices_valid, login_result,
    matching_indices, outcome_of, user_matches, LoginOutcome,
};
use crate::events::event_name_of;
use crate::kawoofs::{lists_quiz, reads_question, stores_question};
use crate::model::{
    AnswerEvent, HostEvent, KaWoof, KawoofDB, NewQuestion, NextQuestionEvent, Player, Question,
    QuestionDB, UserAuth, UserDB, UserLogin,
};
use crate::password::{bcrypt_form, bcrypt_verifies, plain_ascii};
use crate::text::{
    all_digits, decimal, decimal_value, lemma_digits_standard, join_with, joined_answers, lemma_join_split, lemma_sanitize_plain, lemma_split_join, sanitize,
    split_on, views,
};

verus! {

/// A user who has signed up can log in with the same e-mail and password:
/// appending the signed-up row (its e-mail that of the form, its password a
/// hash that accepts the form's password) to a table in which no user
/// matches the form makes the log-in accept that row's id.
pub proof fn law_signup_then_login(users: Seq<UserDB>, login: UserLogin, created: UserDB)
    requires
        matching_indices(users, login).len() == 0,
        created.email@ == login.email@,
        plain_ascii(created.password@),
        bcrypt_verifies(login.password@, created.password@),
        id_fits(created.id),
    ensures
        matching_indices(users.push(created), login) == seq![users.len() as int],
        login_result(users.push(created), login) == Some(
            LoginOutcome::Accepted(UserAuth { id: created.id as u32 }),
        ),
{
    let all = users.push(created);
    assert(all.drop_last() =~= users);
    assert(all.last() == created);
    assert(user_matches(created, login));
    assert(matching_indices(all, login) =~= seq![users.len() as int]);
    assert(all[users.len() as int] == created);
}


/// A log-in is only ever accepted for a stored user whose e-mail is the
/// form's, whose stored hash accepts the form's password, and whose id is
/// the session's id.
pub proof fn law_accepted_login_is_a_matching_user(
    users: Seq<UserDB>,
    login: UserLogin,
    session: UserAuth,
)
    requires
        login_result(users, login) == Some(LoginOutcome::Accepted(session)),
    ensures
        exists|i: int|
            0 <= i < users.len() && (#[trigger] users[i]).email@ == login.email@ && bcrypt_verifies(
                login.password@,
                users[i].password@,
            ) && users[i].id == session.id as i64,
{
    lemma_matching_indices_valid(users, login);
    let i = matching_indices(users, login)[0];
    assert(user_matches(users[i], login));
}

/// Sign-up stores a bcrypt hash, never the plaintext: a stored hash has the
/// bcrypt form, so it differs from every password that does not.
pub proof fn law_signup_stores_no_plaintext(password: Seq<char>, stored: Seq<char>)
    requires
        bcrypt_form(stored),
        !bcrypt_form(password),
    ensures
        stored != password,
{
}

/// A log-in that no user matches is refused.
pub proof fn law_unmatched_login_refused(users: Seq<UserDB>, login: UserLogin)
    requires
        matching_indices(users, login).len() == 0,
    ensures
        login_result(users, login) == Some(LoginOutcome::Rejected),
{
}

/// A log-in that two or more users match (the same e-mail and password
/// signed up twice) is refused.
pub proof fn law_ambiguous_login_refused(users: Seq<UserDB>, login: UserLogin)
    requires
        matching_indices(users, login).len() >= 2,
    ensures
        login_result(users, login) == Some(LoginOutcome::Rejected),
{
}

/// Storing answers and reading them back gives each answer with its `;`
/// turned into `,`, as long as there is at least one answer.
pub proof fn law_answers_round_trip(answers: Seq<Seq<char>>)
    requires
        answers.len() >= 1,
    ensures
        split_on(joined_answers(answers), ';') == answers.map_values(|a: Seq<char>| sanitize(a)),
{
    let parts = answers.map_values(|a: Seq<char>| sanitize(a));
    assert forall|i: int| 0 <= i < parts.len() implies !(#[trigger] parts[i]).contains(';') by {
        lemma_sanitize_plain(answers[i]);
    }
    lemma_split_join(parts, ';');
}

/// Answers that hold no `;` are read back exactly as they were stored.
pub proof fn law_plain_answers_round_trip(answers: Seq<Seq<char>>)
    requires
        answers.len() >= 1,
        forall|i: int| 0 <= i < answers.len() ==> !(#[trigger] answers[i]).contains(';'),
    ensures
        split_on(joined_answers(answers), ';') == answers,
{
    law_answers_round_trip(answers);
    assert forall|i: int| 0 <= i < answers.len() implies sanitize(answers[i]) == answers[i] by {
        assert forall|k: int| 0 <= k < answers[i].len() implies answers[i][k] != ';' by {
            if answers[i][k] == ';' {
                assert(answers[i].contains(';'));
            }
        }
        assert(sanitize(answers[i]) =~= answers[i]);
    }
    assert(answers.map_values(|a: Seq<char>| sanitize(a)) =~= answers);
}

/// Stored answer text reads back as answers that hold no `;` and that, stored
/// again, give back the same text.
pub proof fn law_stored_answers_read_back(stored: Seq<char>)
    ensures
        forall|i: int|
            0 <= i < split_on(stored, ';').len() ==> !(#[trigger] split_on(stored, ';')[i]).contains(
                ';',
            ),
        joined_answers(split_on(stored, ';')) == stored,
{
    lemma_join_split(stored, ';');
    let parts = split_on(stored, ';');
    assert forall|i: int| 0 <= i < parts.len() implies sanitize(parts[i]) == parts[i] by {
        assert forall|k: int| 0 <= k < parts[i].len() implies parts[i][k] != ';' by {
            if parts[i][k] == ';' {
                assert(parts[i].contains(';'));
            }
        }
        assert(sanitize(parts[i]) =~= parts[i]);
    }
    assert(parts.map_values(|a: Seq<char>| sanitize(a)) =~= parts);
    assert(joined_answers(parts) == join_with(parts, ';'));
}

/// A question that is stored and read back keeps its text and its correct
/// answer, and its answers come back with `;` turned into `,`, as long as it
/// has at least one answer.
pub proof fn law_question_round_trip(q: Question, stored: NewQuestion, row: QuestionDB, back: Question)
    requires
        stores_question(stored, q),
        row.question@ == stored.question@,
        row.correct_answer == stored.correct_answer as i64,
        row.answers@ == stored.answers@,
        reads_question(back, row),
        q.answers@.len() >= 1,
    ensures
        back.question@ == q.question@,
        back.correct_answer == q.correct_answer,
        views(back.answers@) == views(q.answers@).map_values(|a: Seq<char>| sanitize(a)),
{
    law_answers_round_trip(views(q.answers@));
}

/// A question id below 256 survives its one-byte storage: cut to a byte and
/// read back, it is the same id.
pub proof fn law_question_id_round_trip(id: i64)
    requires
        0 <= id < 256,
    ensures
        ((id as u8) as i64) == id,
{
}

/// The matching positions are exactly the positions of the users that the
/// form names, each once, in table order.
pub proof fn law_matching_positions_exact(users: Seq<UserDB>, login: UserLogin)
    ensures
        forall|i: int|
            #![trigger matching_indices(users, login).contains(i)]
            matching_indices(users, login).contains(i) <==> (0 <= i < users.len() && user_matches(
                users[i],
                login,
            )),
        forall|a: int, b: int|
            0 <= a < b < matching_indices(users, login).len() ==> #[trigger] matching_indices(
                users,
                login,
            )[a] < #[trigger] matching_indices(users, login)[b],
{
    lemma_matching_indices_valid(users, login);
    lemma_matching_indices_complete(users, login);
    let m = matching_indices(users, login);
    assert forall|i: int| #![trigger m.contains(i)] m.contains(i) implies (0 <= i < users.len()
        && user_matches(users[i], login)) by {
        let k = choose|k: int| 0 <= k < m.len() && m[k] == i;
        assert(0 <= m[k] < users.len() && user_matches(users[m[k]], login));
    }
}

/// When exactly one stored user, wherever it stands in the table, has the
/// form's e-mail and a hash that accepts the form's password, the log-in is
/// accepted with that user's id.
pub proof fn law_login_accepts_the_single_match(users: Seq<UserDB>, login: UserLogin, i: int)
    requires
        0 <= i < users.len(),
        user_matches(users[i], login),
        forall|j: int| 0 <= j < users.len() && j != i ==> !user_matches(#[trigger] users[j], login),
        id_fits(users[i].id),
    ensures
        login_result(users, login) == Some(LoginOutcome::Accepted(UserAuth { id: users[i].id as u32 })),
{
    law_matching_positions_exact(users, login);
    let m = matching_indices(users, login);
    assert(m.contains(i));
    let k = choose|k: int| 0 <= k < m.len() && m[k] == i;
    assert forall|a: int| 0 <= a < m.len() implies m[a] == i by {
        assert(m.contains(m[a]));
    }
    if m.len() > 1 {
        assert(m[0] < m[1]);
        assert(m[0] == i && m[1] == i);
    }
    assert(m.len() == 1);
    assert(m[0] == i);
}

/// When two different stored users both match the form, the log-in is
/// refused, whichever rows they are.
pub proof fn law_login_refuses_two_matches(users: Seq<UserDB>, login: UserLogin, i: int, j: int)
    requires
        0 <= i < users.len(),
        0 <= j < users.len(),
        i != j,
        user_matches(users[i], login),
        user_matches(users[j], login),
    ensures
        login_result(users, login) == Some(LoginOutcome::Rejected),
{
    law_matching_positions_exact(users, login);
    let m = matching_indices(users, login);
    assert(m.contains(i) && m.contains(j));
    let a = choose|a: int| 0 <= a < m.len() && m[a] == i;
    let b = choose|b: int| 0 <= b < m.len() && m[b] == j;
    assert(a != b);
    assert(m.len() >= 2);
}

/// When no stored user matches the form, the log-in is refused.
pub proof fn law_login_refuses_no_match(users: Seq<UserDB>, login: UserLogin)
    requires
        forall|j: int| 0 <= j < users.len() ==> !user_matches(#[trigger] users[j], login),
    ensures
        login_result(users, login) == Some(LoginOutcome::Rejected),
{
    law_matching_positions_exact(users, login);
    let m = matching_indices(users, login);
    if m.len() > 0 {
        assert(m.contains(m[0]));
    }
}

/// Given the matching positions, exactly one match is accepted with that
/// user's id, wherever that row stands; any other number of matches is
/// refused.
pub proof fn law_outcome_by_match_count(users: Seq<UserDB>, matched: Seq<int>)
    requires
        forall|k: int| 0 <= k < matched.len() ==> 0 <= #[trigger] matched[k] < users.len(),
    ensures
        matched.len() == 1 && id_fits(users[matched[0]].id) ==> outcome_of(users, matched) == Some(
            LoginOutcome::Accepted(UserAuth { id: users[matched[0]].id as u32 }),
        ),
        matched.len() != 1 ==> outcome_of(users, matched) == Some(LoginOutcome::Rejected),
{
}

/// The name under which the stream sends an event depends on its kind
/// alone: every lobby event is `player_joined`, every question event
/// `next_question`, every answer event `answer`; events of different kinds
/// get different names.
pub proof fn law_event_names_by_kind()
    ensures
        forall|p: Player| #[trigger] event_name_of(HostEvent::PlayerJoined(p)) == "player_joined"@,
        forall|q: NextQuestionEvent|
            #[trigger] event_name_of(HostEvent::NextQuestion(q)) == "next_question"@,
        forall|a: AnswerEvent| #[trigger] event_name_of(HostEvent::Answer(a)) == "answer"@,
        forall|e1: HostEvent, e2: HostEvent|
            #[trigger] event_name_of(e1) == #[trigger] event_name_of(e2) ==> (e1 is PlayerJoined
                <==> e2 is PlayerJoined) && (e1 is NextQuestion <==> e2 is NextQuestion) && (
            e1 is Answer <==> e2 is Answer),
{
    reveal_strlit("player_joined");
    reveal_strlit("next_question");
    reveal_strlit("answer");
    assert("player_joined"@ != "next_question"@) by {
        assert("player_joined"@[0] != "next_question"@[0]);
    }
    assert("player_joined"@ != "answer"@) by {
        assert("player_joined"@.len() != "answer"@.len());
    }
    assert("next_question"@ != "answer"@) by {
        assert("next_question"@.len() != "answer"@.len());
    }
}

/// A quiz in the author's list has its row's id, title and author, and
/// exactly one question per stored question row, each read from that row.
pub proof fn law_listed_quiz_has_every_question(k: KaWoof, row: KawoofDB, qrows: Seq<QuestionDB>)
    requires
        lists_quiz(k, row, qrows),
    ensures
        k.id as int == row.id,
        k.title@ == row.title@,
        k.author as int == row.author,
        k.questions@.len() == qrows.len(),
        forall|j: int| 0 <= j < qrows.len() ==> reads_question(#[trigger] k.questions@[j], qrows[j]),
{
}

/// The decimal rendering is the standard base-10 one: for `n >= 0` it is
/// one or more digits with no leading zero that read back as `n`; for
/// `n < 0` it is `-` followed by the rendering of `-n`.
pub proof fn law_decimal_is_standard(n: int)
    ensures
        n >= 0 ==> {
            let s = decimal(n);
            &&& s.len() >= 1
            &&& all_digits(s)
            &&& decimal_value(s) == n
            &&& s.len() > 1 ==> s[0] != '0'
        },
        n < 0 ==> {
            let s = decimal(n);
            let t = s.drop_first();
            &&& s.len() >= 2
            &&& s[0] == '-'
            &&& all_digits(t)
            &&& decimal_value(t) == -n
            &&& t.len() > 1 ==> t[0] != '0'
        },
{
    if n >= 0 {
        lemma_digits_standard(n as nat);
    } else {
        lemma_digits_standard((-n) as nat);
        assert(decimal(n).drop_first() =~= crate::text::digits((-n) as nat));
    }
}

} // verus!
