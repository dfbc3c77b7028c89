//! The session store — the per-user map of contexts with its eviction
//! lifecycle — and the message processor that drives one turn: look the
//! context up, dispatch, persist or evict, hand the reply back.

use crate::handler::is_training_kw;
use crate::handler::lemma_keywords_distinct;
use crate::handler::next_state_spec;
use crate::handler::turn_reply;
use crate::handler::Handler;
use crate::handler::HandlerDispatcher;
use crate::model::State;
use crate::model::UserContext;
use std::collections::HashMap;
use vstd::prelude::*;

verus! {

broadcast use vstd::std_specs::hash::group_hash_axioms;

/// The in-memory mapping from user identifier to context. No entry ever
/// holds a context in the `Finished` state, every entry is well formed, and
/// every entry is keyed by its own user identifier.
pub struct SessionStore {
    map: HashMap<u64, UserContext>,
}

impl View for SessionStore {
    type V = Map<u64, UserContext>;

    closed spec fn view(&self) -> Map<u64, UserContext> {
        self.map@
    }
}

impl SessionStore {
    /// The store's invariant over its abstract map.
    pub open spec fn wf(&self) -> bool {
        forall|k: u64| #[trigger]
            self@.contains_key(k) ==> self@[k].wf() && self@[k].user_state != State::Finished
                && self@[k].user_id == k
    }

    /// An empty store.
    pub fn new() -> (r: SessionStore)
        ensures
            r@ == Map::<u64, UserContext>::empty(),
            r.wf(),
    {
        SessionStore { map: HashMap::new() }
    }

    /// Takes the context of `user_id` out of the store, or creates a fresh
    /// one in `ReadyToStart`; until it is saved back the store holds no entry
    /// for `user_id`, so one turn's get-dispatch-save is all-or-nothing.
    pub fn get_or_create(&mut self, user_id: u64) -> (r: UserContext)
        requires
            old(self).wf(),
        ensures
            final(self).wf(),
            final(self)@ == old(self)@.remove(user_id),
            r.wf(),
            r.user_id == user_id,
            r.user_state != State::Finished,
            old(self)@.contains_key(user_id) ==> r == old(self)@[user_id],
            !old(self)@.contains_key(user_id) ==> r.user_state == State::ReadyToStart
                && r.training.exersices@.len() == 0,
    {
        match self.map.remove(&user_id) {
            Some(context) => context,
            None => UserContext::new(user_id),
        }
    }

    /// Stores `context` under `user_id` — unless the dialog is finished, in
    /// which case the entry is evicted: the next message from that user
    /// starts a fresh conversation.
    pub fn save_or_evict(&mut self, user_id: u64, context: UserContext)
        requires
            old(self).wf(),
            context.wf(),
            context.user_id == user_id,
        ensures
            final(self).wf(),
            context.user_state == State::Finished ==> final(self)@ == old(self)@.remove(user_id),
            context.user_state != State::Finished ==> final(self)@ == old(self)@.insert(
                user_id,
                context,
            ),
    {
        if context.user_state != State::Finished {
            self.map.insert(user_id, context);
        } else {
            self.map.remove(&user_id);
        }
    }
}

/// Orchestrates one inbound message: session lookup, dispatch, write-back or
/// eviction, and the reply to deliver.
pub struct MessageProcessor {
    pub store: SessionStore,
    pub dispatcher: HandlerDispatcher,
}

/// The dialog state a turn of `user_id` starts from: the stored one, or
/// `ReadyToStart` for a user the store has never seen.
pub open spec fn state_of(sessions: Map<u64, UserContext>, user_id: u64) -> State {
    if sessions.contains_key(user_id) {
        sessions[user_id].user_state
    } else {
        State::ReadyToStart
    }
}

impl MessageProcessor {
    /// The processor is usable whenever its store is.
    pub open spec fn wf(&self) -> bool {
        self.store.wf()
    }

    /// The stored sessions, keyed by user identifier.
    pub open spec fn sessions(&self) -> Map<u64, UserContext> {
        self.store@
    }

    /// A processor with an empty store.
    pub fn new() -> (r: MessageProcessor)
        ensures
            r.wf(),
            r.sessions() == Map::<u64, UserContext>::empty(),
    {
        MessageProcessor { store: SessionStore::new(), dispatcher: HandlerDispatcher::new() }
    }

    /// Processes one inbound (user, text) pair. A missing text is a silently
    /// ignored turn. Otherwise the user's context — fresh in `ReadyToStart`
    /// for a user the store has never seen — takes one dispatched turn; a
    /// finished dialog is evicted, any other outcome is stored; no other
    /// user's entry is touched; and the reply is returned for delivery.
    pub fn process_message(&mut self, user_id: u64, text: Option<String>) -> (r: Option<String>)
        requires
            old(self).wf(),
        ensures
            final(self).wf(),
            r is Some <==> text is Some,
            text is None ==> final(self).sessions() == old(self).sessions(),
            text is Some ==> (next_state_spec(state_of(old(self).sessions(), user_id), text->0@)
                == State::Finished ==> !final(self).sessions().contains_key(user_id)),
            text is Some ==> (next_state_spec(state_of(old(self).sessions(), user_id), text->0@)
                != State::Finished ==> final(self).sessions().contains_key(user_id)
                && final(self).sessions()[user_id].user_state == next_state_spec(
                state_of(old(self).sessions(), user_id),
                text->0@,
            ) && final(self).sessions()[user_id].user_id == user_id),
            text is Some ==> forall|k: u64|
                k != user_id ==> (#[trigger] final(self).sessions().contains_key(k)
                    == old(self).sessions().contains_key(k)) && (old(self).sessions().contains_key(
                    k,
                ) ==> final(self).sessions()[k] == old(self).sessions()[k]),
            text is Some ==> exists|secs: nat|
                r->0@ == #[trigger] turn_reply(
                    state_of(old(self).sessions(), user_id),
                    text->0@,
                    secs,
                ),
            text is Some ==> (state_of(old(self).sessions(), user_id) == State::ChooseTraining
                && is_training_kw(text->0@) ==> final(self).sessions().contains_key(user_id)
                && final(self).sessions()[user_id].training.exersices@.len() == 1
                && final(self).sessions()[user_id].training.exersices@[0].name@ == text->0@),
    {
        if text.is_none() {
            return None;
        }
        let t = text.unwrap();
        let user_context = self.store.get_or_create(user_id);
        let ghost ctx0 = user_context;
        let ghost s0 = user_context.user_state;
        let (answer, next) = self.dispatcher.handle(t, user_context);
        self.store.save_or_evict(user_id, next);
        proof {
            lemma_keywords_distinct();
            let s0v = state_of(old(self).sessions(), user_id);
            assert(s0v == s0);
            if s0 == State::SelectDistance && crate::text::parseable_u32(t@) {
                assert(ctx0.training.exersices@.len() == 1);
                assert(answer@ == turn_reply(
                    s0v,
                    t@,
                    next.training.exersices@[0].training_time as nat,
                ));
            } else {
                assert(answer@ == turn_reply(s0v, t@, 0));
            }
        }
        Some(answer)
    }
}

} // verus!
