use vstd::prelude::*;

use crate::model::{
    AnswerEvent, CheckAnswerForm, ClientKawoof, ClientQuestion, CorrectAnswerDB, HostEvent, KaWoof,
    NextQuestionEvent, Player, RedirectForm, Username,
};
use crate::text::{decimal, decimal_text};
use vstd::string::*;

verus! {

/// A copy of a list of strings.
pub fn copy_strings(v: &Vec<String>) -> (r: Vec<String>)
    ensures
        r@ == v@,
{
    let n = v.len();
    let mut r: Vec<String> = Vec::new();
    let mut i: usize = 0;
    while i < n
        invariant
            n == v@.len(),
            i <= n,
            r@ == v@.take(i as int),
        decreases n - i,
    {
        r.push(v[i].clone());
        assert(v@.take(i + 1) =~= v@.take(i as int).push(v@[i as int]));
        i = i + 1;
    }
    assert(v@.take(n as int) =~= v@);
    r
}


/// The page where a player who asked to join quiz `form.kawoof_id` enters
/// a name: `/join/` and the id in decimal.
pub fn player_name_path(form: &RedirectForm) -> (path: String)
    ensures
        path@ == "/join/"@ + decimal(form.kawoof_id as int),
{
    let mut path = String::from_str("/join/");
    let id = decimal_text(form.kawoof_id);
    path.append(id.as_str());
    path
}

/// The lobby event of a player who joins quiz `kawoof_id` under a name.
pub fn player_joined(kawoof_id: u32, player: &Username) -> (e: HostEvent)
    ensures
        e == HostEvent::PlayerJoined(Player { name: player.name, kawoof_id }),
{
    HostEvent::PlayerJoined(Player { name: player.name.clone(), kawoof_id })
}

/// What a joining player is shown of a quiz: its title and author.
pub fn client_kawoof(kawoof: &KaWoof) -> (r: ClientKawoof)
    ensures
        r == (ClientKawoof { title: kawoof.title, author: kawoof.author }),
{
    ClientKawoof { title: kawoof.title.clone(), author: kawoof.author }
}

/// The event that moves quiz `kawoof_id` on to question number `counter`
/// (counted from 0): the question and its answers, without the correct
/// one. `None` when the quiz has no such question.
pub fn next_question_event(kawoof: &KaWoof, kawoof_id: u32, counter: usize) -> (r: Option<
    HostEvent,
>)
    ensures
        r is None <==> counter >= kawoof.questions@.len(),
        counter < kawoof.questions@.len() ==> (r matches Some(HostEvent::NextQuestion(ev)) && {
            let q = kawoof.questions@[counter as int];
            &&& ev.kawoof_id == kawoof_id
            &&& ev.question.question == q.question
            &&& ev.question.answers@ == q.answers@
        }),
{
    if counter >= kawoof.questions.len() {
        return None;
    }
    let q = &kawoof.questions[counter];
    let answers = copy_strings(&q.answers);
    Some(
        HostEvent::NextQuestion(
            NextQuestionEvent {
                kawoof_id,
                question: ClientQuestion { question: q.question.clone(), answers },
            },
        ),
    )
}

/// The event of a player's answer: right exactly when the chosen answer is
/// the stored correct one.
pub fn answer_event(kawoof_id: u32, form: &CheckAnswerForm, stored: &CorrectAnswerDB) -> (e:
    HostEvent)
    ensures
        e == HostEvent::Answer(
            AnswerEvent {
                correct: form.answer_id == stored.correct_answer,
                player_id: form.player_id,
                kawoof_id,
            },
        ),
{
    HostEvent::Answer(
        AnswerEvent {
            correct: form.answer_id == stored.correct_answer,
            player_id: form.player_id,
            kawoof_id,
        },
    )
}

/// What the host's event stream got from its queue, or from the server.
#[derive(Debug, Clone, PartialEq)]
pub enum Received {
    /// An event arrived.
    Message(HostEvent),
    /// The queue is closed: no event will come.
    Closed,
    /// The stream fell behind and this many events were dropped.
    Lagged(u64),
    /// The server is shutting down.
    Shutdown,
}

/// What the host's event stream does next.
#[derive(Debug, Clone, PartialEq)]
pub enum StreamStep {
    /// Send this event on to the host, under its kind's name.
    Emit(HostEvent),
    /// Go on waiting.
    Skip,
    /// End the stream.
    Stop,
}

/// The stream's decision: an event is sent on, a lag is passed over, and a
/// closed queue or a shutdown ends the stream.
pub fn stream_step(got: Received) -> (s: StreamStep)
    ensures
        got matches Received::Message(e) ==> s == StreamStep::Emit(e),
        got is Lagged ==> s == StreamStep::Skip,
        got is Closed || got is Shutdown ==> s == StreamStep::Stop,
{
    match got {
        Received::Message(e) => StreamStep::Emit(e),
        Received::Closed => StreamStep::Stop,
        Received::Lagged(_) => StreamStep::Skip,
        Received::Shutdown => StreamStep::Stop,
    }
}

/// The name under which the stream sends an event of each kind.
pub open spec fn event_name_of(e: HostEvent) -> Seq<char> {
    match e {
        HostEvent::PlayerJoined(_) => "player_joined"@,
        HostEvent::NextQuestion(_) => "next_question"@,
        HostEvent::Answer(_) => "answer"@,
    }
}

/// The name under which the stream sends an event.
pub fn event_name(e: &HostEvent) -> (name: &'static str)
    ensures
        name@ == event_name_of(*e),
{
    match e {
        HostEvent::PlayerJoined(_) => "player_joined",
        HostEvent::NextQuestion(_) => "next_question",
        HostEvent::Answer(_) => "answer",
    }
}

} // verus!
