//! The domain data model: dialog states, one timed cardio activity, the
//! training session that owns the activities, and the per-user context.

use crate::clock::instant_now;
use crate::clock::secs_since;
use vstd::prelude::*;

verus! {

/// The stage of one user's conversation. The dialog advances linearly:
/// `ReadyToStart` to `ChooseTraining` to `TrainingInProgres` to
/// `SelectDistance` to `Finished`; `Finished` is terminal and never stored.
#[derive(Debug, Clone, Copy, PartialEq, Eq, Structural)]
pub enum State {
    ChooseTraining,
    ReadyToStart,
    TrainingInProgres,
    SelectDistance,
    Finished,
}

/// One timed activity: a start mark on the monotonic clock, the label the
/// user chose, and — once finished — the elapsed whole seconds and the
/// distance the user reported.
pub struct CardioExersice {
    pub start_time: std::time::Instant,
    pub name: String,
    /// Whole seconds from the start mark to the finish; zero until finished.
    pub training_time: u64,
    /// The distance the user reported; zero until finished.
    pub distance: u32,
    /// Whether the activity has been finished; finishing happens exactly once.
    pub finished: Ghost<bool>,
}

impl CardioExersice {
    /// Whether this activity has already been finished.
    pub open spec fn is_finished(&self) -> bool {
        self.finished@
    }

    /// Creates an unfinished activity labelled `name`, its start mark taken
    /// from the monotonic clock now.
    pub fn start(name: String) -> (r: CardioExersice)
        ensures
            r.name@ == name@,
            r.training_time == 0,
            r.distance == 0,
            !r.is_finished(),
    {
        CardioExersice {
            start_time: instant_now(),
            name,
            training_time: 0,
            distance: 0,
            finished: Ghost(false),
        }
    }

    /// Finishes the activity: records the reported distance and the whole
    /// seconds elapsed since the start mark. The elapsed value comes from the
    /// clock, so only the rest of the record is pinned down.
    pub fn finish(&mut self, distanse: u32)
        requires
            !old(self).is_finished(),
        ensures
            final(self).is_finished(),
            final(self).distance == distanse,
            final(self).name == old(self).name,
            final(self).start_time == old(self).start_time,
    {
        self.training_time = secs_since(&self.start_time);
        self.distance = distanse;
        self.finished = Ghost(true);
    }
}

/// The ordered collection of activities of one conversation, with the mark
/// of the moment the session was created.
pub struct CardioTraining {
    pub start_time: std::time::Instant,
    pub exersices: Vec<CardioExersice>,
}

impl CardioTraining {
    /// Creates an empty session, its start mark taken from the clock now.
    pub fn start() -> (r: CardioTraining)
        ensures
            r.exersices@.len() == 0,
    {
        CardioTraining { start_time: instant_now(), exersices: Vec::new() }
    }

    /// Appends one activity; insertion order is preserved.
    pub fn add_exersise(&mut self, exersice: CardioExersice)
        ensures
            final(self).exersices@ == old(self).exersices@.push(exersice),
            final(self).start_time == old(self).start_time,
    {
        self.exersices.push(exersice)
    }

    /// Read access to the activities, in insertion order.
    pub fn get_exersises(&self) -> (r: &Vec<CardioExersice>)
        ensures
            r@ == self.exersices@,
    {
        &self.exersices
    }
}

/// The per-user unit of state: a stable user identifier, the current dialog
/// state, and the owned training session.
pub struct UserContext {
    pub user_id: u64,
    pub user_state: State,
    pub training: CardioTraining,
}

impl UserContext {
    /// The dialog state and the shape of the session agree: before an
    /// activity is accepted the session is empty; while one is tracked or
    /// awaiting its distance it is the single unfinished record; once the
    /// dialog is finished it is the single finished record.
    pub open spec fn wf(self) -> bool {
        match self.user_state {
            State::ReadyToStart => self.training.exersices@.len() == 0,
            State::ChooseTraining => self.training.exersices@.len() == 0,
            State::TrainingInProgres => self.training.exersices@.len() == 1
                && !self.training.exersices@[0].is_finished(),
            State::SelectDistance => self.training.exersices@.len() == 1
                && !self.training.exersices@[0].is_finished(),
            State::Finished => self.training.exersices@.len() == 1
                && self.training.exersices@[0].is_finished(),
        }
    }

    /// A fresh context for `id`: ready to start, with an empty session.
    pub fn new(id: u64) -> (r: UserContext)
        ensures
            r.user_id == id,
            r.user_state == State::ReadyToStart,
            r.training.exersices@.len() == 0,
            r.wf(),
    {
        UserContext { user_id: id, user_state: State::ReadyToStart, training: CardioTraining::start() }
    }
}

} // verus!
