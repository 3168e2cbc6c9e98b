use vstd::prelude::*;

use crate::auth::id_fits;
use crate::model::{KaWoof, KaWoofForm, KawoofDB, NewKawoof, NewQuestion, Question, QuestionDB, UserAuth};
use crate::text::{join_answers, joined_answers, split_answers, split_on, views};

verus! {

/// The row that stores one question of the creation form.
pub fn new_question(q: &Question) -> (r: NewQuestion)
    ensures
        r.question@ == q.question@,
        r.correct_answer == q.correct_answer,
        r.answers@ == joined_answers(views(q.answers@)),
{
    NewQuestion {
        question: q.question.clone(),
        correct_answer: q.correct_answer,
        answers: join_answers(&q.answers),
    }
}

/// Whether `r` is the stored row of question `q`.
pub open spec fn stores_question(r: NewQuestion, q: Question) -> bool {
    &&& r.question@ == q.question@
    &&& r.correct_answer == q.correct_answer
    &&& r.answers@ == joined_answers(views(q.answers@))
}

/// The rows that store the form's questions, in the form's order.
pub fn new_questions(form: &KaWoofForm) -> (r: Vec<NewQuestion>)
    ensures
        r@.len() == form.questions@.len(),
        forall|i: int| 0 <= i < r@.len() ==> stores_question(#[trigger] r@[i], form.questions@[i]),
{
    let n = form.questions.len();
    let mut r: Vec<NewQuestion> = Vec::new();
    let mut i: usize = 0;
    while i < n
        invariant
            n == form.questions@.len(),
            i <= n,
            r@.len() == i,
            forall|k: int| 0 <= k < i ==> stores_question(#[trigger] r@[k], form.questions@[k]),
        decreases n - i,
    {
        r.push(new_question(&form.questions[i]));
        i = i + 1;
    }
    r
}

/// The ids of the stored questions, one byte each: each id is cut to its
/// low eight bits, as `id as u8` does.
pub fn question_ids_to_bytes(ids: &Vec<i64>) -> (r: Vec<u8>)
    ensures
        r@.len() == ids@.len(),
        forall|i: int| 0 <= i < r@.len() ==> #[trigger] r@[i] == ids@[i] as u8,
{
    let n = ids.len();
    let mut r: Vec<u8> = Vec::new();
    let mut i: usize = 0;
    while i < n
        invariant
            n == ids@.len(),
            i <= n,
            r@.len() == i,
            forall|k: int| 0 <= k < i ==> #[trigger] r@[k] == ids@[k] as u8,
        decreases n - i,
    {
        r.push(ids[i] as u8);
        i = i + 1;
    }
    r
}

/// The row that stores a new quiz of the signed-in user, given the ids
/// that the database gave its questions.
pub fn new_kawoof(form: &KaWoofForm, user: &UserAuth, question_ids: &Vec<i64>) -> (r: NewKawoof)
    ensures
        r.title@ == form.title@,
        r.author == user.id,
        r.questions@.len() == question_ids@.len(),
        forall|i: int| 0 <= i < r.questions@.len() ==> #[trigger] r.questions@[i] == question_ids@[i] as u8,
{
    NewKawoof {
        title: form.title.clone(),
        author: user.id,
        questions: question_ids_to_bytes(question_ids),
    }
}

/// The ids of a stored quiz's questions, to look them up.
pub fn stored_question_ids(row: &KawoofDB) -> (r: Vec<i64>)
    ensures
        r@.len() == row.questions@.len(),
        forall|i: int| 0 <= i < r@.len() ==> #[trigger] r@[i] == row.questions@[i] as i64,
{
    let n = row.questions.len();
    let mut r: Vec<i64> = Vec::new();
    let mut i: usize = 0;
    while i < n
        invariant
            n == row.questions@.len(),
            i <= n,
            r@.len() == i,
            forall|k: int| 0 <= k < i ==> #[trigger] r@[k] == row.questions@[k] as i64,
        decreases n - i,
    {
        r.push(row.questions[i] as i64);
        i = i + 1;
    }
    r
}

/// Whether `q` is the question that row `row` stores: its answers are the
/// stored text split at each `;`.
pub open spec fn reads_question(q: Question, row: QuestionDB) -> bool {
    &&& q.question@ == row.question@
    &&& q.correct_answer as int == row.correct_answer
    &&& views(q.answers@) == split_on(row.answers@, ';')
}

/// The question that a stored row holds. The stored correct answer must fit
/// a `u8`.
pub fn question_from_db(row: &QuestionDB) -> (r: Question)
    requires
        0 <= row.correct_answer <= 255,
    ensures
        reads_question(r, *row),
{
    Question {
        question: row.question.clone(),
        answers: split_answers(row.answers.as_str()),
        correct_answer: row.correct_answer as u8,
    }
}


/// The questions that stored rows hold, in the rows' order. Each stored
/// correct answer must fit a `u8`.
pub fn questions_from_db(rows: &Vec<QuestionDB>) -> (r: Vec<Question>)
    requires
        forall|i: int| 0 <= i < rows@.len() ==> 0 <= #[trigger] rows@[i].correct_answer <= 255,
    ensures
        r@.len() == rows@.len(),
        forall|i: int| 0 <= i < r@.len() ==> reads_question(#[trigger] r@[i], rows@[i]),
{
    let n = rows.len();
    let mut r: Vec<Question> = Vec::new();
    let mut i: usize = 0;
    while i < n
        invariant
            n == rows@.len(),
            i <= n,
            r@.len() == i,
            forall|k: int| 0 <= k < rows@.len() ==> 0 <= #[trigger] rows@[k].correct_answer <= 255,
            forall|k: int| 0 <= k < i ==> reads_question(#[trigger] r@[k], rows@[k]),
        decreases n - i,
    {
        r.push(question_from_db(&rows[i]));
        i = i + 1;
    }
    r
}

/// A quiz as the author's list shows it: id, title and author from the row,
/// with its questions. The row's id and author must fit a `u32`.
pub fn kawoof_from_db(row: &KawoofDB, questions: Vec<Question>) -> (r: KaWoof)
    requires
        id_fits(row.id),
        id_fits(row.author),
    ensures
        r.id as int == row.id,
        r.title@ == row.title@,
        r.author as int == row.author,
        r.questions == questions,
{
    KaWoof { id: row.id as u32, title: row.title.clone(), author: row.author as u32, questions }
}

/// Whether `k` is the quiz that row `row`, with the stored rows `qrows` of
/// its questions, shows in the author's list.
pub open spec fn lists_quiz(k: KaWoof, row: KawoofDB, qrows: Seq<QuestionDB>) -> bool {
    &&& k.id as int == row.id
    &&& k.title@ == row.title@
    &&& k.author as int == row.author
    &&& k.questions@.len() == qrows.len()
    &&& forall|j: int| 0 <= j < qrows.len() ==> reads_question(#[trigger] k.questions@[j], qrows[j])
}

/// Whether a quiz row can be listed: its id and author fit a `u32`, and each
/// of its questions' stored correct answers fits a `u8`.
pub open spec fn listable(row: KawoofDB, qrows: Seq<QuestionDB>) -> bool {
    &&& id_fits(row.id)
    &&& id_fits(row.author)
    &&& forall|j: int| 0 <= j < qrows.len() ==> 0 <= #[trigger] qrows[j].correct_answer <= 255
}

/// The author's list of quizzes: one quiz for each row, in the rows' order,
/// each with the questions of the matching list of stored question rows.
pub fn kawoofs_from_db(rows: &Vec<KawoofDB>, question_rows: &Vec<Vec<QuestionDB>>) -> (r: Vec<KaWoof>)
    requires
        rows@.len() == question_rows@.len(),
        forall|i: int| 0 <= i < rows@.len() ==> listable(#[trigger] rows@[i], question_rows@[i]@),
    ensures
        r@.len() == rows@.len(),
        forall|i: int| 0 <= i < r@.len() ==> lists_quiz(#[trigger] r@[i], rows@[i], question_rows@[i]@),
{
    let n = rows.len();
    let mut r: Vec<KaWoof> = Vec::new();
    let mut i: usize = 0;
    while i < n
        invariant
            n == rows@.len(),
            n == question_rows@.len(),
            i <= n,
            r@.len() == i,
            forall|k: int| 0 <= k < rows@.len() ==> listable(#[trigger] rows@[k], question_rows@[k]@),
            forall|k: int| 0 <= k < i ==> lists_quiz(#[trigger] r@[k], rows@[k], question_rows@[k]@),
        decreases n - i,
    {
        assert(listable(rows@[i as int], question_rows@[i as int]@));
        let questions = questions_from_db(&question_rows[i]);
        let k = kawoof_from_db(&rows[i], questions);
        r.push(k);
        i = i + 1;
    }
    r
}

/// A quiz as one quiz's pages show it: the row's id fills both the quiz's
/// id and its author; the row's author is not read. The row's id must fit
/// a `u32`.
pub fn kawoof_from_lookup(row: &KawoofDB, questions: Vec<Question>) -> (r: KaWoof)
    requires
        id_fits(row.id),
    ensures
        r.id as int == row.id,
        r.title@ == row.title@,
        r.author as int == row.id,
        r.questions == questions,
{
    KaWoof { id: row.id as u32, title: row.title.clone(), author: row.id as u32, questions }
}

} // verus!
