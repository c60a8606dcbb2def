//! The durable record of where the bot stands.
//!
//! The record is the single source of truth across restarts. It says when the
//! last post went out, which sequence id the next image carries, and whether
//! that image still has to be made or is made and waits to be published. It
//! changes at two points only: when an image has been made and stored, and
//! when it has been published.

use crate::names::{image_file_name, image_name};
use crate::time::{clock_now, Timestamp};
use vstd::prelude::*;
use vstd::string::StringExecFns;

verus! {

/// What `get_saved_image` says when no image has been made yet.
pub const NO_SAVED_IMAGE: &'static str = "Asked to load image but currently in Awaiting state";

/// What every `BadStateError` reads as.
pub const BAD_STATE: &'static str = "function called while in incorrect state";

/// Where the current image stands.
#[derive(Clone, Copy, Debug, PartialEq, Eq)]
pub enum Phase {
    /// The image for the current id has yet to be made.
    Awaiting,
    /// The image for the current id is made and stored, and not yet posted.
    Generated,
}

/// The record: the time of the last post, the id of the image in hand, and
/// the phase that image is in.
#[derive(Clone, Copy, Debug, PartialEq, Eq)]
pub struct State {
    pub last_post: Option<Timestamp>,
    pub id: u32,
    pub phase: Phase,
}

/// Something was asked of the record that its phase does not allow. The
/// field says what.
#[derive(Debug, PartialEq, Eq)]
pub struct BadStateError(pub String);

impl BadStateError {
    /// The error as one line of text, the same for every value.
    pub fn message(&self) -> (text: String)
        ensures
            text@ == BAD_STATE@,
    {
        String::from_str(BAD_STATE)
    }
}

impl State {
    /// The record of a bot that has never run: nothing posted, the first id,
    /// its image yet to be made.
    pub open spec fn initial() -> State {
        State { last_post: None, id: 1, phase: Phase::Awaiting }
    }

    /// The record that follows `self` once its image has been made and stored.
    pub open spec fn after_production(self) -> State {
        State { last_post: self.last_post, id: self.id, phase: Phase::Generated }
    }

    /// The record that follows `self` once its image has been posted at `now`.
    pub open spec fn after_post(self, now: Timestamp) -> State {
        State { last_post: Some(now), id: (self.id + 1) as u32, phase: Phase::Awaiting }
    }

    /// The record to start from, given what was found in storage: the stored
    /// record, or the initial one where none could be read.
    pub open spec fn loaded_or_initial(loaded: Option<State>) -> State {
        match loaded {
            Some(stored) => stored,
            None => State::initial(),
        }
    }

    /// The record to start from. `loaded` is what reading the record file
    /// gave: `None` where the file is missing, unreadable or damaged.
    pub fn get_state(loaded: Option<State>) -> (state: State)
        ensures
            state == State::loaded_or_initial(loaded),
    {
        match loaded {
            Some(stored) => stored,
            None => State::default(),
        }
    }

    /// The name of the file that holds the image of the current id.
    pub fn get_filename(&self) -> (name: String)
        ensures
            name@ == image_name(self.id),
    {
        image_file_name(self.id)
    }

    /// The name of the file from which to read the stored image back. There
    /// is one exactly when an image has been made and not yet posted.
    pub fn get_saved_image(&self) -> (file: Result<String, BadStateError>)
        ensures
            self.phase is Generated ==> (file matches Ok(name) && name@ == image_name(self.id)),
            self.phase is Awaiting ==> (file matches Err(e) && e.0@ == NO_SAVED_IMAGE@),
    {
        match self.phase {
            Phase::Awaiting => Err(BadStateError(String::from_str(NO_SAVED_IMAGE))),
            Phase::Generated => Ok(self.get_filename()),
        }
    }

    /// The record once the image in hand was posted at `now`: the post is
    /// timed, the id moves on by one, and the next image is yet to be made.
    pub fn posted_at(self, now: Timestamp) -> (next: State)
        requires
            self.id < u32::MAX,
        ensures
            next == self.after_post(now),
    {
        State { last_post: Some(now), id: self.id + 1, phase: Phase::Awaiting }
    }

    /// The record once the image in hand was posted just now, by the wall
    /// clock.
    pub fn posted(self) -> (next: State)
        requires
            self.id < u32::MAX,
        ensures
            exists|now: Timestamp| next == self.after_post(now),
    {
        let now = clock_now();
        let next = self.posted_at(now);
        assert(next == self.after_post(now));
        next
    }

    /// The record once the image in hand has been made and stored.
    pub fn generated(self) -> (next: State)
        ensures
            next == self.after_production(),
    {
        State { last_post: self.last_post, id: self.id, phase: Phase::Generated }
    }
}

impl Default for State {
    fn default() -> (state: State)
        ensures
            state == State::initial(),
    {
        State { last_post: None, id: 1, phase: Phase::Awaiting }
    }
}

/// Starting without a stored record always gives the same record, the
/// initial one; and a record that was stored comes back as it was.
pub proof fn lemma_missing_record_loads_initial(stored: State)
    ensures
        State::loaded_or_initial(None) == State::initial(),
        State::loaded_or_initial(Some(State::loaded_or_initial(None))) == State::initial(),
        State::loaded_or_initial(Some(stored)) == stored,
{
}

/// A post moves the id on by exactly one and never back, whatever the
/// record held before and whenever the post was made.
pub proof fn lemma_post_advances_id(state: State, now: Timestamp)
    requires
        state.id < u32::MAX,
    ensures
        state.after_post(now).id == state.id + 1,
        state.after_post(now).phase is Awaiting,
        state.after_post(now).last_post == Some(now),
        state.after_production().id == state.id,
        state.after_production().last_post == state.last_post,
{
}

} // verus!
