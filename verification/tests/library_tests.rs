use kawoof::auth::{
    check_user, email_ids_fit_all, login_outcome, login_redirect, matching_user_indices, signup_user,
    try_check_user, LoginOutcome,
};
use kawoof::events::{
    answer_event, client_kawoof, event_name, next_question_event, player_joined, player_name_path,
    stream_step, Received, StreamStep,
};
use kawoof::kawoofs::{
    kawoof_from_db, kawoof_from_lookup, kawoofs_from_db, new_kawoof, new_question, new_questions, question_from_db,
    question_ids_to_bytes, questions_from_db, stored_question_ids,
};
use kawoof::model::{
    AnswerEvent, CheckAnswerForm, ClientQuestion, CorrectAnswerDB, HostEvent, KaWoof, KaWoofForm,
    KawoofDB, NextQuestionEvent, Player, Question, QuestionDB, RedirectForm, UserAuth, UserDB,
    UserLogin, Username,
};
use kawoof::password::{hash_password, is_plain_ascii, password_matches};
use kawoof::text::{decimal_text, join_answers, sanitize_answer, split_answers};

fn s(x: &str) -> String {
    x.to_string()
}

fn strings(xs: &[&str]) -> Vec<String> {
    xs.iter().map(|x| x.to_string()).collect()
}

fn login(email: &str, password: &str) -> UserLogin {
    UserLogin { email: s(email), password: s(password) }
}

fn sample_question(q: &str, answers: &[&str], correct: u8) -> Question {
    Question { question: s(q), answers: strings(answers), correct_answer: correct }
}

fn sample_kawoof() -> KaWoof {
    KaWoof {
        id: 3,
        title: s("Capitals"),
        author: 9,
        questions: vec![
            sample_question("Capital of France?", &["Paris", "Lyon"], 0),
            sample_question("Capital of Peru?", &["Cusco", "Lima", "Arequipa"], 1),
        ],
    }
}

// ---------------- text ----------------

#[test]
fn split_answers_cases() {
    assert_eq!(split_answers("a;b;c"), strings(&["a", "b", "c"]));
    assert_eq!(split_answers(""), strings(&[""]));
    assert_eq!(split_answers(";"), strings(&["", ""]));
    assert_eq!(split_answers("one"), strings(&["one"]));
    assert_eq!(split_answers("x;;y;"), strings(&["x", "", "y", ""]));
    assert_eq!(split_answers("é;ü"), strings(&["é", "ü"]));
}

#[test]
fn split_answers_agrees_with_str_split() {
    for t in ["a;b", ";;", "abc", "", "1;2;3;", "ä;b;ç"] {
        let expected: Vec<String> = t.split(";").map(|e| e.to_string()).collect();
        assert_eq!(split_answers(t), expected);
    }
}

#[test]
fn sanitize_answer_replaces_separator() {
    assert_eq!(sanitize_answer("a;b"), "a,b");
    assert_eq!(sanitize_answer(";;"), ",,");
    assert_eq!(sanitize_answer("plain"), "plain");
    assert_eq!(sanitize_answer(""), "");
    assert_eq!(sanitize_answer("ö;ü"), "ö,ü");
}

#[test]
fn join_answers_cases() {
    assert_eq!(join_answers(&strings(&["Paris", "Lyon"])), "Paris;Lyon");
    assert_eq!(join_answers(&strings(&["a;b", "c"])), "a,b;c");
    assert_eq!(join_answers(&strings(&["only"])), "only");
    assert_eq!(join_answers(&Vec::new()), "");
    assert_eq!(join_answers(&strings(&["", ""])), ";");
}

#[test]
fn join_answers_agrees_with_replace_and_join() {
    let answers = strings(&["x;y", "z", ";", ""]);
    let expected = answers.iter().map(|e| e.replace(";", ",")).collect::<Vec<String>>().join(";");
    assert_eq!(join_answers(&answers), expected);
}

#[test]
fn answers_round_trip() {
    let answers = strings(&["Paris", "Lyon", "Nice"]);
    assert_eq!(split_answers(&join_answers(&answers)), answers);
    let with_sep = strings(&["a;b", "c"]);
    assert_eq!(split_answers(&join_answers(&with_sep)), strings(&["a,b", "c"]));
}

#[test]
fn empty_answer_list_reads_back_as_one_empty_answer() {
    assert_eq!(split_answers(&join_answers(&Vec::new())), strings(&[""]));
}

#[test]
fn decimal_text_cases() {
    assert_eq!(decimal_text(0), "0");
    assert_eq!(decimal_text(7), "7");
    assert_eq!(decimal_text(10), "10");
    assert_eq!(decimal_text(1234567890), "1234567890");
    assert_eq!(decimal_text(-42), "-42");
    assert_eq!(decimal_text(i64::MAX), i64::MAX.to_string());
    assert_eq!(decimal_text(i64::MIN), i64::MIN.to_string());
}

// ---------------- passwords and log-in ----------------

#[test]
fn plain_ascii_check() {
    assert!(is_plain_ascii("$2b$10$abc"));
    assert!(is_plain_ascii(""));
    assert!(!is_plain_ascii("a\u{1}b"));
    assert!(!is_plain_ascii("\n"));
    assert!(!is_plain_ascii("\u{80}"));
    assert!(!is_plain_ascii("é"));
    assert!(is_plain_ascii("~\u{7f}"));
}

#[test]
fn hashing_gives_a_verifying_hash() {
    let h = hash_password("hunter2").unwrap();
    assert_ne!(h, "hunter2");
    assert!(h.starts_with("$2b$10$"));
    assert_eq!(h.len(), 60);
    assert!(password_matches("hunter2", &h));
    assert!(!password_matches("hunter3", &h));
    assert!(!password_matches("hunter2", "not a hash"));
    assert!(!password_matches("hunter2", "\u{1}"));
    let odd_salt = format!("$2b$10$\u{80}{}", "a".repeat(52));
    assert!(!password_matches("hunter2", &odd_salt));
}

#[test]
fn signup_row_holds_email_and_hash() {
    let form = login("ann@example.com", "secret");
    let row = signup_user(&form).unwrap();
    assert_eq!(row.email, "ann@example.com");
    assert_ne!(row.password_hash, "secret");
    assert!(row.password_hash.starts_with("$2b$10$"));
    assert_eq!(row.password_hash.chars().count(), 60);
    assert!(password_matches("secret", &row.password_hash));
}

#[test]
fn signup_then_login() {
    let form = login("ann@example.com", "secret");
    let row = signup_user(&form).unwrap();
    let users = vec![
        UserDB { id: 1, email: s("bob@example.com"), password: s("$2b$10$whatever") },
        UserDB { id: 2, email: row.email.clone(), password: row.password_hash.clone() },
    ];
    assert_eq!(check_user(&users, &form), LoginOutcome::Accepted(UserAuth { id: 2 }));
    assert_eq!(try_check_user(&users, &form), Some(LoginOutcome::Accepted(UserAuth { id: 2 })));
    assert_eq!(matching_user_indices(&users, &form), vec![1usize]);
}

#[test]
fn wrong_password_or_email_is_refused() {
    let row = signup_user(&login("ann@example.com", "secret")).unwrap();
    let users = vec![UserDB { id: 2, email: s("ann@example.com"), password: row.password_hash }];
    assert_eq!(check_user(&users, &login("ann@example.com", "wrong")), LoginOutcome::Rejected);
    assert_eq!(check_user(&users, &login("bob@example.com", "secret")), LoginOutcome::Rejected);
    assert_eq!(try_check_user(&Vec::new(), &login("ann@example.com", "secret")), Some(LoginOutcome::Rejected));
}

#[test]
fn duplicate_accounts_are_refused() {
    let form = login("ann@example.com", "secret");
    let a = signup_user(&form).unwrap();
    let b = signup_user(&form).unwrap();
    let users = vec![
        UserDB { id: 1, email: a.email, password: a.password_hash },
        UserDB { id: 2, email: b.email, password: b.password_hash },
    ];
    assert_eq!(matching_user_indices(&users, &form), vec![0usize, 1]);
    assert_eq!(check_user(&users, &form), LoginOutcome::Rejected);
}

#[test]
fn out_of_range_id_gives_none() {
    let form = login("ann@example.com", "secret");
    let row = signup_user(&form).unwrap();
    let users = vec![UserDB { id: 1 << 40, email: row.email, password: row.password_hash.clone() }];
    assert!(!email_ids_fit_all(&users, &form.email));
    assert_eq!(try_check_user(&users, &form), None);
    // A wrong password against the same row is still refused.
    assert_eq!(try_check_user(&users, &login("ann@example.com", "nope")), Some(LoginOutcome::Rejected));
    // An out-of-range id under another e-mail does not stand in the way.
    let users = vec![
        UserDB { id: -1, email: s("bob@example.com"), password: s("x") },
        UserDB { id: 3, email: s("ann@example.com"), password: row.password_hash },
    ];
    assert!(email_ids_fit_all(&users, &form.email));
    assert_eq!(try_check_user(&users, &form), Some(LoginOutcome::Accepted(UserAuth { id: 3 })));
}

#[test]
fn login_outcome_cases() {
    let users = vec![
        UserDB { id: 5, email: s("a"), password: s("x") },
        UserDB { id: 6, email: s("b"), password: s("y") },
    ];
    assert_eq!(login_outcome(&users, &vec![1]), LoginOutcome::Accepted(UserAuth { id: 6 }));
    assert_eq!(login_outcome(&users, &vec![]), LoginOutcome::Rejected);
    assert_eq!(login_outcome(&users, &vec![0, 1]), LoginOutcome::Rejected);
}

#[test]
fn login_redirect_targets() {
    assert_eq!(login_redirect(&LoginOutcome::Rejected), "login");
    assert_eq!(login_redirect(&LoginOutcome::Accepted(UserAuth { id: 1 })), "/");
}

// ---------------- quizzes ----------------

#[test]
fn new_question_row() {
    let q = sample_question("Pick one", &["a;b", "c"], 1);
    let row = new_question(&q);
    assert_eq!(row.question, "Pick one");
    assert_eq!(row.correct_answer, 1);
    assert_eq!(row.answers, "a,b;c");
}

#[test]
fn new_questions_keep_order() {
    let form = KaWoofForm {
        title: s("T"),
        questions: vec![sample_question("1", &["x"], 0), sample_question("2", &["y", "z"], 1)],
    };
    let rows = new_questions(&form);
    assert_eq!(rows.len(), 2);
    assert_eq!(rows[0].question, "1");
    assert_eq!(rows[1].answers, "y;z");
    assert_eq!(rows[1].correct_answer, 1);
}

#[test]
fn question_ids_are_cut_to_bytes() {
    assert_eq!(question_ids_to_bytes(&vec![1, 255, 256, 257, -1]), vec![1u8, 255, 0, 1, 255]);
    assert_eq!(question_ids_to_bytes(&vec![]), Vec::<u8>::new());
}

#[test]
fn new_kawoof_row() {
    let form = KaWoofForm { title: s("Quiz"), questions: vec![] };
    let row = new_kawoof(&form, &UserAuth { id: 12 }, &vec![3, 300]);
    assert_eq!(row.title, "Quiz");
    assert_eq!(row.author, 12);
    assert_eq!(row.questions, vec![3u8, 44]);
}

#[test]
fn stored_ids_read_back() {
    let row = KawoofDB { id: 1, title: s("t"), author: 2, questions: vec![4, 200] };
    assert_eq!(stored_question_ids(&row), vec![4i64, 200]);
}

#[test]
fn question_id_round_trip() {
    let ids: Vec<i64> = vec![0, 17, 255];
    let row = KawoofDB { id: 1, title: s("t"), author: 2, questions: question_ids_to_bytes(&ids) };
    assert_eq!(stored_question_ids(&row), ids);
}

#[test]
fn question_from_stored_row() {
    let row = QuestionDB { question: s("Q?"), correct_answer: 2, answers: s("a;b;c") };
    let q = question_from_db(&row);
    assert_eq!(q, sample_question("Q?", &["a", "b", "c"], 2));
}

#[test]
fn question_stored_and_read_back() {
    let q = sample_question("Which?", &["x;y", "z"], 1);
    let stored = new_question(&q);
    let row = QuestionDB {
        question: stored.question.clone(),
        correct_answer: stored.correct_answer as i64,
        answers: stored.answers.clone(),
    };
    let back = question_from_db(&row);
    assert_eq!(back, sample_question("Which?", &["x,y", "z"], 1));
}

#[test]
fn questions_from_rows_keep_order() {
    let rows = vec![
        QuestionDB { question: s("1"), correct_answer: 0, answers: s("a") },
        QuestionDB { question: s("2"), correct_answer: 255, answers: s("b;c") },
    ];
    let qs = questions_from_db(&rows);
    assert_eq!(qs, vec![sample_question("1", &["a"], 0), sample_question("2", &["b", "c"], 255)]);
}

#[test]
fn kawoof_from_list_row_uses_author() {
    let row = KawoofDB { id: 4, title: s("T"), author: 8, questions: vec![] };
    let k = kawoof_from_db(&row, vec![]);
    assert_eq!(k, KaWoof { id: 4, title: s("T"), author: 8, questions: vec![] });
}

#[test]
fn kawoof_from_lookup_row_uses_id_as_author() {
    let row = KawoofDB { id: 4, title: s("T"), author: 8, questions: vec![] };
    let k = kawoof_from_lookup(&row, vec![sample_question("q", &["a"], 0)]);
    assert_eq!(k.id, 4);
    assert_eq!(k.author, 4);
    assert_eq!(k.questions.len(), 1);
}

// ---------------- playing ----------------

#[test]
fn player_joined_event() {
    let e = player_joined(3, &Username { name: s("Zoe") });
    assert_eq!(e, HostEvent::PlayerJoined(Player { name: s("Zoe"), kawoof_id: 3 }));
}

#[test]
fn client_kawoof_fields() {
    let c = client_kawoof(&sample_kawoof());
    assert_eq!(c.title, "Capitals");
    assert_eq!(c.author, 9);
}

#[test]
fn next_question_in_range() {
    let e = next_question_event(&sample_kawoof(), 3, 1);
    assert_eq!(
        e,
        Some(HostEvent::NextQuestion(NextQuestionEvent {
            kawoof_id: 3,
            question: ClientQuestion {
                question: s("Capital of Peru?"),
                answers: strings(&["Cusco", "Lima", "Arequipa"]),
            },
        }))
    );
}

#[test]
fn next_question_past_the_end() {
    assert_eq!(next_question_event(&sample_kawoof(), 3, 2), None);
    assert_eq!(next_question_event(&sample_kawoof(), 3, usize::MAX), None);
}

#[test]
fn answer_events() {
    let form = CheckAnswerForm { answer_id: 2, question_id: 7, player_id: 11 };
    assert_eq!(
        answer_event(5, &form, &CorrectAnswerDB { correct_answer: 2 }),
        HostEvent::Answer(AnswerEvent { correct: true, player_id: 11, kawoof_id: 5 })
    );
    assert_eq!(
        answer_event(5, &form, &CorrectAnswerDB { correct_answer: 0 }),
        HostEvent::Answer(AnswerEvent { correct: false, player_id: 11, kawoof_id: 5 })
    );
}

#[test]
fn stream_steps() {
    let e = HostEvent::Answer(AnswerEvent { correct: true, player_id: 1, kawoof_id: 2 });
    assert_eq!(stream_step(Received::Message(e.clone())), StreamStep::Emit(e));
    assert_eq!(stream_step(Received::Lagged(3)), StreamStep::Skip);
    assert_eq!(stream_step(Received::Closed), StreamStep::Stop);
    assert_eq!(stream_step(Received::Shutdown), StreamStep::Stop);
}

#[test]
fn event_names() {
    assert_eq!(event_name(&HostEvent::PlayerJoined(Player { name: s("a"), kawoof_id: 1 })), "player_joined");
    let nq = next_question_event(&sample_kawoof(), 3, 0).unwrap();
    assert_eq!(event_name(&nq), "next_question");
    assert_eq!(
        event_name(&HostEvent::Answer(AnswerEvent { correct: false, player_id: 1, kawoof_id: 1 })),
        "answer"
    );
}

#[test]
fn player_name_paths() {
    assert_eq!(player_name_path(&RedirectForm { kawoof_id: 42 }), "/join/42");
    assert_eq!(player_name_path(&RedirectForm { kawoof_id: -7 }), "/join/-7");
    assert_eq!(player_name_path(&RedirectForm { kawoof_id: 0 }), "/join/0");
}

#[test]
fn author_list_one_quiz_per_row() {
    let rows = vec![
        KawoofDB { id: 1, title: s("A"), author: 7, questions: vec![1, 2] },
        KawoofDB { id: 2, title: s("B"), author: 7, questions: vec![] },
    ];
    let question_rows = vec![
        vec![
            QuestionDB { question: s("q1"), correct_answer: 0, answers: s("x;y") },
            QuestionDB { question: s("q2"), correct_answer: 1, answers: s("z") },
        ],
        vec![],
    ];
    let list = kawoofs_from_db(&rows, &question_rows);
    assert_eq!(
        list,
        vec![
            KaWoof {
                id: 1,
                title: s("A"),
                author: 7,
                questions: vec![sample_question("q1", &["x", "y"], 0), sample_question("q2", &["z"], 1)],
            },
            KaWoof { id: 2, title: s("B"), author: 7, questions: vec![] },
        ]
    );
    assert_eq!(kawoofs_from_db(&vec![], &vec![]), Vec::<KaWoof>::new());
}
