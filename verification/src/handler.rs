//! The dialog dispatcher: a pure transform from the current user context and
//! the inbound text to the reply and the next context, one handler per
//! recognized situation, selected by state and message in a fixed precedence
//! order (help first, then the state-specific commands, then a fallback).

use crate::model::CardioExersice;
use crate::model::State;
use crate::model::UserContext;
use crate::text::dec_digits;
use crate::text::parse_u32;
use crate::text::parseable_u32;
use crate::text::parsed_u32;
use crate::text::text_is;
use crate::text::u32_to_string;
use crate::text::u64_to_string;
use vstd::prelude::*;
use vstd::string::StringExecFns;

verus! {

/// The command that shows the help text, recognized in every state.
pub open spec fn help_kw() -> Seq<char> {
    "/HELP"@
}

/// The command that opens a conversation.
pub open spec fn start_kw() -> Seq<char> {
    "/START"@
}

/// The command that ends the tracked activity.
pub open spec fn stop_kw() -> Seq<char> {
    "/STOP"@
}

/// The running activity keyword.
pub open spec fn running_kw() -> Seq<char> {
    "/RUN"@
}

/// The cycling activity keyword.
pub open spec fn cycling_kw() -> Seq<char> {
    "/CYCLING"@
}

/// Whether `m` is one of the recognized activity keywords.
pub open spec fn is_training_kw(m: Seq<char>) -> bool {
    m == running_kw() || m == cycling_kw()
}

/// The reply to the help command.
pub open spec fn help_reply() -> Seq<char> {
    "Выбери /START для начала тренировки"@
}

/// The reply that enumerates the recognized activity keywords.
pub open spec fn start_reply() -> Seq<char> {
    "Выбери тренировку: /RUN, /CYCLING"@
}

/// The reply once an activity was accepted.
pub open spec fn chosen_reply() -> Seq<char> {
    "Нажмите /STOP для завершения"@
}

/// The reply to a message that is no recognized activity keyword.
pub open spec fn wrong_exersice_reply() -> Seq<char> {
    "Не верное упражнение\\. Введите одно из: [/RUN][/CYCLING]"@
}

/// The reminder of the stop command.
pub open spec fn press_stop_reply() -> Seq<char> {
    "Для завершения тренировки нажмите: /STOP"@
}

/// The request for the covered distance.
pub open spec fn ask_distance_reply() -> Seq<char> {
    "Введите пройденную дистанцию"@
}

/// The closing reply, reporting the distance and the elapsed seconds.
pub open spec fn finished_reply(d: nat, secs: nat) -> Seq<char> {
    "Тренировка завершена\\. Пройденная дистанция: "@ + dec_digits(d) + ", время: "@ + dec_digits(
        secs,
    )
}

/// The closing reply when the session holds no activity at all.
pub open spec fn finished_empty_reply() -> Seq<char> {
    "Тренировка завершена"@
}

/// The reply to a distance that is no non-negative integer, echoing it.
pub open spec fn invalid_distance_reply(m: Seq<char>) -> Seq<char> {
    "Дистанция должна быть положительным числом\\. Вы ввели: "@ + m
}

/// The fallback reply, naming the unrecognized input.
pub open spec fn unknown_reply(m: Seq<char>) -> Seq<char> {
    "Неизвестная команда: "@ + m + ", введите /HELP для получения помощи"@
}

/// The five command keywords are pairwise distinct texts.
pub proof fn lemma_keywords_distinct()
    ensures
        help_kw() != start_kw(),
        help_kw() != stop_kw(),
        help_kw() != running_kw(),
        help_kw() != cycling_kw(),
        stop_kw() != running_kw(),
        stop_kw() != cycling_kw(),
        start_kw() != running_kw(),
        start_kw() != cycling_kw(),
{
    reveal_strlit("/HELP");
    reveal_strlit("/START");
    reveal_strlit("/STOP");
    reveal_strlit("/RUN");
    reveal_strlit("/CYCLING");
    assert(help_kw().len() == 5);
    assert(start_kw().len() == 6);
    assert(stop_kw().len() == 5);
    assert(running_kw().len() == 4);
    assert(cycling_kw().len() == 8);
    assert(help_kw()[1] == 'H');
    assert(stop_kw()[1] == 'S');
}

/// The state after one turn: help keeps the state; the start keyword opens
/// the activity choice; an activity keyword starts the tracking; the stop
/// keyword asks for the distance; in `SelectDistance` a parseable number
/// finishes the dialog and anything else keeps it there; everything else
/// leaves the state unchanged.
pub open spec fn next_state_spec(s: State, m: Seq<char>) -> State {
    if m == help_kw() {
        s
    } else if s == State::ReadyToStart && m == start_kw() {
        State::ChooseTraining
    } else if s == State::ChooseTraining && is_training_kw(m) {
        State::TrainingInProgres
    } else if s == State::TrainingInProgres && m == stop_kw() {
        State::SelectDistance
    } else if s == State::SelectDistance {
        if parseable_u32(m) {
            State::Finished
        } else {
            State::SelectDistance
        }
    } else {
        s
    }
}

/// The reply of one turn, as far as it is a function of the state and the
/// message: only the closing reply also shows the elapsed seconds `secs`,
/// which come from the clock.
pub open spec fn turn_reply(s: State, m: Seq<char>, secs: nat) -> Seq<char> {
    if m == help_kw() {
        help_reply()
    } else if s == State::ReadyToStart && m == start_kw() {
        start_reply()
    } else if s == State::ChooseTraining && is_training_kw(m) {
        chosen_reply()
    } else if s == State::TrainingInProgres && m == stop_kw() {
        ask_distance_reply()
    } else if s == State::SelectDistance {
        if parseable_u32(m) {
            finished_reply(parsed_u32(m), secs)
        } else {
            invalid_distance_reply(m)
        }
    } else {
        unknown_reply(m)
    }
}

/// Everything one dispatched turn does, stated over the context before
/// (`ctx`) and after (`next`) and the reply: the identifier is kept, the
/// state advances as [`next_state_spec`] says, and the session is mutated
/// exactly where the rules append or finish a record.
pub open spec fn dispatch_post(
    ctx: UserContext,
    m: Seq<char>,
    reply: Seq<char>,
    next: UserContext,
) -> bool {
    let s = ctx.user_state;
    &&& next.user_id == ctx.user_id
    &&& next.user_state == next_state_spec(s, m)
    &&& next.training.start_time == ctx.training.start_time
    &&& if m == help_kw() {
        next == ctx && reply == help_reply()
    } else if s == State::ReadyToStart && m == start_kw() {
        next.training == ctx.training && reply == start_reply()
    } else if s == State::ChooseTraining && is_training_kw(m) {
        &&& next.training.exersices@.len() == ctx.training.exersices@.len() + 1
        &&& forall|i: int|
            0 <= i < ctx.training.exersices@.len() ==> next.training.exersices@[i]
                == ctx.training.exersices@[i]
        &&& next.training.exersices@.last().name@ == m
        &&& next.training.exersices@.last().training_time == 0
        &&& next.training.exersices@.last().distance == 0
        &&& !next.training.exersices@.last().is_finished()
        &&& reply == chosen_reply()
    } else if s == State::TrainingInProgres && m == stop_kw() {
        next.training == ctx.training && reply == ask_distance_reply()
    } else if s == State::SelectDistance {
        if parseable_u32(m) {
            &&& next.training.exersices@.len() == ctx.training.exersices@.len()
            &&& ctx.training.exersices@.len() > 0 ==> {
                let ex = next.training.exersices@[0];
                &&& ex.distance as nat == parsed_u32(m)
                &&& ex.name == ctx.training.exersices@[0].name
                &&& ex.start_time == ctx.training.exersices@[0].start_time
                &&& ex.is_finished()
                &&& forall|i: int|
                    1 <= i < ctx.training.exersices@.len() ==> next.training.exersices@[i]
                        == ctx.training.exersices@[i]
                &&& reply == finished_reply(ex.distance as nat, ex.training_time as nat)
            }
            &&& ctx.training.exersices@.len() == 0 ==> next.training == ctx.training && reply
                == finished_empty_reply()
        } else {
            next == ctx && reply == invalid_distance_reply(m)
        }
    } else {
        next == ctx && reply == unknown_reply(m)
    }
}

/// One dialog turn.
pub trait Handler {
    /// What the handler demands of the context it is handed.
    spec fn pre(&self, ctx: UserContext) -> bool;

    /// How the reply and the next context relate to the message and the
    /// context the turn started from.
    spec fn post(&self, m: Seq<char>, ctx: UserContext, reply: Seq<char>, next: UserContext) -> bool;

    /// Produces the reply to send and the context to store.
    fn handle(&self, message: String, user_context: UserContext) -> (r: (String, UserContext))
        requires
            self.pre(user_context),
        ensures
            self.post(message@, user_context, r.0@, r.1),
    ;
}

/// Selects the handler for the current state and message and runs it.
pub struct HandlerDispatcher {}

impl HandlerDispatcher {
    /// A dispatcher; it carries no state of its own.
    pub fn new() -> HandlerDispatcher {
        HandlerDispatcher {}
    }
}

/// Help: the same text in every state, the context untouched.
fn handle_help(_message: String, user_context: UserContext) -> (r: (String, UserContext))
    ensures
        r.1 == user_context,
        r.0@ == help_reply(),
{
    (String::from_str("Выбери /START для начала тренировки"), user_context)
}

/// Start: opens the choice of a training.
fn handle_start(_message: String, user_context: UserContext) -> (r: (String, UserContext))
    ensures
        r.1.user_id == user_context.user_id,
        r.1.user_state == State::ChooseTraining,
        r.1.training == user_context.training,
        r.0@ == start_reply(),
{
    let mut context = user_context;
    context.user_state = State::ChooseTraining;
    (String::from_str("Выбери тренировку: /RUN, /CYCLING"), context)
}

/// Choice of a training: a recognized keyword starts a record named after
/// it; anything else is rejected with the list of choices.
fn handle_select_exer(message: String, user_context: UserContext) -> (r: (String, UserContext))
    ensures
        is_training_kw(message@) ==> {
            &&& r.1.user_id == user_context.user_id
            &&& r.1.user_state == State::TrainingInProgres
            &&& r.1.training.start_time == user_context.training.start_time
            &&& r.1.training.exersices@.len() == user_context.training.exersices@.len() + 1
            &&& forall|i: int|
                0 <= i < user_context.training.exersices@.len() ==> r.1.training.exersices@[i]
                    == user_context.training.exersices@[i]
            &&& r.1.training.exersices@.last().name@ == message@
            &&& r.1.training.exersices@.last().training_time == 0
            &&& r.1.training.exersices@.last().distance == 0
            &&& !r.1.training.exersices@.last().is_finished()
            &&& r.0@ == chosen_reply()
        },
        !is_training_kw(message@) ==> r.1 == user_context && r.0@ == wrong_exersice_reply(),
{
    if !(text_is(message.as_str(), "/RUN") || text_is(message.as_str(), "/CYCLING")) {
        (
            String::from_str("Не верное упражнение\\. Введите одно из: [/RUN][/CYCLING]"),
            user_context,
        )
    } else {
        let mut context = user_context;
        context.user_state = State::TrainingInProgres;
        context.training.add_exersise(CardioExersice::start(message));
        (String::from_str("Нажмите /STOP для завершения"), context)
    }
}

/// Stop: ends the tracked activity and asks for the distance; any other
/// message only repeats how to stop.
fn handle_stop(message: String, user_context: UserContext) -> (r: (String, UserContext))
    ensures
        message@ == stop_kw() ==> {
            &&& r.1.user_id == user_context.user_id
            &&& r.1.user_state == State::SelectDistance
            &&& r.1.training == user_context.training
            &&& r.0@ == ask_distance_reply()
        },
        message@ != stop_kw() ==> r.1 == user_context && r.0@ == press_stop_reply(),
{
    if !text_is(message.as_str(), "/STOP") {
        (String::from_str("Для завершения тренировки нажмите: /STOP"), user_context)
    } else {
        let mut context = user_context;
        context.user_state = State::SelectDistance;
        (String::from_str("Введите пройденную дистанцию"), context)
    }
}

/// Distance: a non-negative integer finishes the first record of the session
/// and closes the dialog; anything else is echoed back and the state kept.
fn handle_select_distance(message: String, user_context: UserContext) -> (r: (String, UserContext))
    requires
        user_context.training.exersices@.len() > 0 ==> !user_context.training.exersices@[0]
            .is_finished(),
    ensures
        r.1.user_id == user_context.user_id,
        r.1.training.start_time == user_context.training.start_time,
        parseable_u32(message@) ==> {
            &&& r.1.user_state == State::Finished
            &&& r.1.training.exersices@.len() == user_context.training.exersices@.len()
            &&& user_context.training.exersices@.len() > 0 ==> {
                let ex = r.1.training.exersices@[0];
                &&& !user_context.training.exersices@[0].is_finished() ==> ex.is_finished()
                &&& ex.distance as nat == parsed_u32(message@)
                &&& ex.name == user_context.training.exersices@[0].name
                &&& ex.start_time == user_context.training.exersices@[0].start_time
                &&& forall|i: int|
                    1 <= i < user_context.training.exersices@.len() ==> r.1.training.exersices@[i]
                        == user_context.training.exersices@[i]
                &&& r.0@ == finished_reply(ex.distance as nat, ex.training_time as nat)
            }
            &&& user_context.training.exersices@.len() == 0 ==> r.1.training
                == user_context.training && r.0@ == finished_empty_reply()
        },
        !parseable_u32(message@) ==> r.1 == user_context && r.0@ == invalid_distance_reply(
            message@,
        ),
{
    match parse_u32(message.as_str()) {
        Some(d) => {
            let mut context = user_context;
            context.user_state = State::Finished;
            if context.training.exersices.len() > 0 {
                let mut ex = context.training.exersices.remove(0);
                ex.finish(d);
                let mut reply = String::from_str(
                    "Тренировка завершена\\. Пройденная дистанция: ",
                );
                let d_text = u32_to_string(ex.distance);
                reply.append(d_text.as_str());
                reply.append(", время: ");
                let t_text = u64_to_string(ex.training_time);
                reply.append(t_text.as_str());
                context.training.exersices.insert(0, ex);
                proof {
                    assert(reply@ =~= finished_reply(
                        context.training.exersices@[0].distance as nat,
                        context.training.exersices@[0].training_time as nat,
                    ));
                }
                (reply, context)
            } else {
                (String::from_str("Тренировка завершена"), context)
            }
        },
        None => {
            let mut reply = String::from_str(
                "Дистанция должна быть положительным числом\\. Вы ввели: ",
            );
            reply.append(message.as_str());
            proof {
                assert(reply@ =~= invalid_distance_reply(message@));
            }
            (reply, user_context)
        },
    }
}

/// Fallback: names the unrecognized input and points to the help command.
fn handle_unknown(message: String, user_context: UserContext) -> (r: (String, UserContext))
    ensures
        r.1 == user_context,
        r.0@ == unknown_reply(message@),
{
    let mut reply = String::from_str("Неизвестная команда: ");
    reply.append(message.as_str());
    reply.append(", введите /HELP для получения помощи");
    proof {
        assert(reply@ =~= unknown_reply(message@));
    }
    (reply, user_context)
}

impl Handler for HandlerDispatcher {
    open spec fn pre(&self, ctx: UserContext) -> bool {
        ctx.wf()
    }

    open spec fn post(
        &self,
        m: Seq<char>,
        ctx: UserContext,
        reply: Seq<char>,
        next: UserContext,
    ) -> bool {
        dispatch_post(ctx, m, reply, next) && next.wf()
    }

    fn handle(&self, message: String, user_context: UserContext) -> (r: (String, UserContext)) {
        let state = user_context.user_state;
        if text_is(message.as_str(), "/HELP") {
            handle_help(message, user_context)
        } else if text_is(message.as_str(), "/START") && state == State::ReadyToStart {
            handle_start(message, user_context)
        } else if (text_is(message.as_str(), "/RUN") || text_is(message.as_str(), "/CYCLING"))
            && state == State::ChooseTraining {
            handle_select_exer(message, user_context)
        } else if text_is(message.as_str(), "/STOP") && state == State::TrainingInProgres {
            handle_stop(message, user_context)
        } else if state == State::SelectDistance {
            handle_select_distance(message, user_context)
        } else {
            handle_unknown(message, user_context)
        }
    }
}

} // verus!
