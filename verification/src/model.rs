use vstd::prelude::*;

verus! {

//====================== Accounts ======================

/// The claims carried by a session token: the signed-in user.
#[derive(Debug, Clone, Copy, PartialEq, Eq)]
pub struct UserAuth {
    pub id: u32,
}

/// A row of the `users` table: the password is stored as a bcrypt hash.
#[derive(Debug, Clone, PartialEq)]
pub struct UserDB {
    pub id: i64,
    pub email: String,
    pub password: String,
}

/// The sign-up and log-in form.
#[derive(Debug, Clone, PartialEq)]
pub struct UserLogin {
    pub email: String,
    pub password: String,
}

/// A user row about to be inserted: the e-mail and the hashed password.
#[derive(Debug, Clone, PartialEq)]
pub struct NewUser {
    pub email: String,
    pub password_hash: String,
}

//====================== Quizzes ======================

/// One question of a quiz, as the creation form and the pages hold it.
#[derive(Debug, Clone, PartialEq)]
pub struct Question {
    pub question: String,
    pub answers: Vec<String>,
    pub correct_answer: u8,
}

/// A quiz with its questions.
#[derive(Debug, Clone, PartialEq)]
pub struct KaWoof {
    pub id: u32,
    pub title: String,
    pub author: u32,
    pub questions: Vec<Question>,
}

/// The quiz creation form.
#[derive(Debug, Clone, PartialEq)]
pub struct KaWoofForm {
    pub title: String,
    pub questions: Vec<Question>,
}

/// A row of the `kawoofs` table; `questions` holds one byte per question id.
#[derive(Debug, Clone, PartialEq)]
pub struct KawoofDB {
    pub id: i64,
    pub title: String,
    pub author: i64,
    pub questions: Vec<u8>,
}

/// A row of the `questions` table; the answers are joined by `;`.
#[derive(Debug, Clone, PartialEq)]
pub struct QuestionDB {
    pub question: String,
    pub correct_answer: i64,
    pub answers: String,
}

/// A question row about to be inserted.
#[derive(Debug, Clone, PartialEq)]
pub struct NewQuestion {
    pub question: String,
    pub correct_answer: u8,
    pub answers: String,
}

/// A quiz row about to be inserted.
#[derive(Debug, Clone, PartialEq)]
pub struct NewKawoof {
    pub title: String,
    pub author: u32,
    pub questions: Vec<u8>,
}

/// The part of a quiz that a joining player sees.
#[derive(Debug, Clone, PartialEq)]
pub struct ClientKawoof {
    pub title: String,
    pub author: u32,
}

//====================== Playing ======================

/// The name a player enters in the lobby.
#[derive(Debug, Clone, PartialEq)]
pub struct Username {
    pub name: String,
}

/// The form that asks which quiz to join.
#[derive(Debug, Clone, Copy, PartialEq, Eq)]
pub struct RedirectForm {
    pub kawoof_id: i64,
}

/// A player's answer to a question.
#[derive(Debug, Clone, Copy, PartialEq, Eq)]
pub struct CheckAnswerForm {
    pub answer_id: i64,
    pub question_id: u32,
    pub player_id: u32,
}

/// The stored correct answer of a question.
#[derive(Debug, Clone, Copy, PartialEq, Eq)]
pub struct CorrectAnswerDB {
    pub correct_answer: i64,
}

/// A player in a quiz's lobby.
#[derive(Debug, Clone, PartialEq)]
pub struct Player {
    pub name: String,
    pub kawoof_id: u32,
}

/// A question as the players receive it, without its correct answer.
#[derive(Debug, Clone, PartialEq)]
pub struct ClientQuestion {
    pub question: String,
    pub answers: Vec<String>,
}

/// The host moved a quiz on to a question.
#[derive(Debug, Clone, PartialEq)]
pub struct NextQuestionEvent {
    pub kawoof_id: u32,
    pub question: ClientQuestion,
}

/// A player answered a question, rightly or wrongly.
#[derive(Debug, Clone, Copy, PartialEq, Eq)]
pub struct AnswerEvent {
    pub correct: bool,
    pub player_id: u32,
    pub kawoof_id: u32,
}

/// What the host's event stream carries.
#[derive(Debug, Clone, PartialEq)]
pub enum HostEvent {
    PlayerJoined(Player),
    NextQuestion(NextQuestionEvent),
    Answer(AnswerEvent),
}

} // verus!
