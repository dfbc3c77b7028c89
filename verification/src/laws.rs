//! The laws of the dialog, stated over the dispatch relation and the store
//! invariant and proved once and for all.

use crate::handler::dispatch_post;
use crate::handler::finished_reply;
use crate::handler::help_kw;
use crate::handler::help_reply;
use crate::handler::invalid_distance_reply;
use crate::handler::is_training_kw;
use crate::handler::lemma_keywords_distinct;
use crate::handler::next_state_spec;
use crate::handler::start_kw;
use crate::handler::start_reply;
use crate::handler::unknown_reply;
use crate::model::State;
use crate::model::UserContext;
use crate::service::state_of;
use crate::service::SessionStore;
use crate::text::parseable_u32;
use crate::text::parsed_u32;
use vstd::prelude::*;

verus! {

/// The help command is answered in every state with the help text and leaves
/// the context — state and session alike — untouched.
pub proof fn lemma_help_always_works(ctx: UserContext, reply: Seq<char>, next: UserContext)
    requires
        dispatch_post(ctx, help_kw(), reply, next),
    ensures
        next == ctx,
        reply == help_reply(),
{
}

/// A user the store has never seen takes their first turn from
/// `ReadyToStart`; if that first message is the help command, the state it
/// leaves behind is still `ReadyToStart`.
pub proof fn lemma_first_turn(sessions: Map<u64, UserContext>, user_id: u64, m: Seq<char>)
    requires
        !sessions.contains_key(user_id),
    ensures
        state_of(sessions, user_id) == State::ReadyToStart,
        m == help_kw() ==> next_state_spec(state_of(sessions, user_id), m)
            == State::ReadyToStart,
{
}

/// The start keyword, sent from `ReadyToStart`, always moves the dialog to
/// `ChooseTraining`, and the reply is the one that enumerates the recognized
/// activity keywords.
pub proof fn lemma_start_turn(ctx: UserContext, reply: Seq<char>, next: UserContext)
    requires
        ctx.user_state == State::ReadyToStart,
        dispatch_post(ctx, start_kw(), reply, next),
    ensures
        next.user_state == State::ChooseTraining,
        next.training == ctx.training,
        reply == start_reply(),
{
    lemma_keywords_distinct();
}

/// Any message that is no recognized activity keyword leaves a dialog in
/// `ChooseTraining` exactly where it was.
pub proof fn lemma_choose_training_rejects_unrecognized(m: Seq<char>)
    requires
        !is_training_kw(m),
    ensures
        next_state_spec(State::ChooseTraining, m) == State::ChooseTraining,
{
}

/// A recognized activity keyword, sent while choosing, creates exactly one
/// activity record — named after the message, unfinished — and moves the
/// dialog to `TrainingInProgres`.
pub proof fn lemma_select_training_turn(
    ctx: UserContext,
    m: Seq<char>,
    reply: Seq<char>,
    next: UserContext,
)
    requires
        ctx.wf(),
        ctx.user_state == State::ChooseTraining,
        is_training_kw(m),
        dispatch_post(ctx, m, reply, next),
    ensures
        next.user_state == State::TrainingInProgres,
        next.training.exersices@.len() == ctx.training.exersices@.len() + 1,
        next.training.exersices@.len() == 1,
        next.training.exersices@[0].name@ == m,
        !next.training.exersices@[0].is_finished(),
{
    lemma_keywords_distinct();
}

/// A second activity keyword, sent while a training is already tracked, is
/// rejected by the fallback rule: nothing is appended, the context is
/// untouched, and the reply names the unrecognized command.
pub proof fn lemma_second_training_rejected(
    ctx: UserContext,
    m: Seq<char>,
    reply: Seq<char>,
    next: UserContext,
)
    requires
        ctx.user_state == State::TrainingInProgres,
        is_training_kw(m),
        dispatch_post(ctx, m, reply, next),
    ensures
        next == ctx,
        next.training.exersices@.len() == ctx.training.exersices@.len(),
        reply == unknown_reply(m),
{
    lemma_keywords_distinct();
}

/// The help keyword is no parseable number, so the help rule and the
/// distance rule never overlap.
pub proof fn lemma_help_not_parseable()
    ensures
        !parseable_u32(help_kw()),
{
    reveal_strlit("/HELP");
    assert(help_kw()[0] == '/');
    assert(!crate::text::is_dec_digit(help_kw()[0]));
}

/// In `SelectDistance`, any input parseable as a non-negative integer
/// finishes the dialog.
pub proof fn lemma_distance_finishes_state(m: Seq<char>)
    requires
        parseable_u32(m),
    ensures
        next_state_spec(State::SelectDistance, m) == State::Finished,
{
    lemma_help_not_parseable();
}

/// A parseable distance finishes the one activity record: its distance is
/// the parsed value, it is marked finished, its elapsed seconds are the
/// non-negative value the clock gave, and the reply reports both.
pub proof fn lemma_distance_accepted(
    ctx: UserContext,
    m: Seq<char>,
    reply: Seq<char>,
    next: UserContext,
)
    requires
        ctx.wf(),
        ctx.user_state == State::SelectDistance,
        parseable_u32(m),
        dispatch_post(ctx, m, reply, next),
    ensures
        next.user_state == State::Finished,
        next.training.exersices@.len() == 1,
        next.training.exersices@[0].distance as nat == parsed_u32(m),
        next.training.exersices@[0].is_finished(),
        next.training.exersices@[0].training_time >= 0,
        reply == finished_reply(parsed_u32(m), next.training.exersices@[0].training_time as nat),
{
    lemma_help_not_parseable();
}

/// An input that is no non-negative integer leaves a dialog in
/// `SelectDistance` untouched, and the reply ends by echoing the offending
/// input. (The help command is answered by the help rule instead.)
pub proof fn lemma_distance_rejected(
    ctx: UserContext,
    m: Seq<char>,
    reply: Seq<char>,
    next: UserContext,
)
    requires
        ctx.user_state == State::SelectDistance,
        !parseable_u32(m),
        m != help_kw(),
        dispatch_post(ctx, m, reply, next),
    ensures
        next == ctx,
        next.user_state == State::SelectDistance,
        reply == invalid_distance_reply(m),
        reply.len() >= m.len(),
        reply.subrange(reply.len() - m.len(), reply.len() as int) == m,
{
    assert(reply.subrange(reply.len() - m.len(), reply.len() as int) =~= m);
}

/// No entry of a well-formed session store ever holds a finished dialog, and
/// every entry is well formed and keyed by its own user identifier.
pub proof fn lemma_no_finished_entry_persists(store: SessionStore, k: u64)
    requires
        store.wf(),
        store@.contains_key(k),
    ensures
        store@[k].user_state != State::Finished,
        store@[k].wf(),
        store@[k].user_id == k,
{
}

} // verus!
