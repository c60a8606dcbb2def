//! The controller that gets each image posted exactly once.
//!
//! The controller owns no clock, no storage and no network. It is told what
//! happened (an `Event`) and answers with what to do next (an `Action`);
//! whoever runs it carries the action out and reports back. Between the two
//! it keeps the record, the image in hand, the count of failed attempts and
//! the one thing it still waits to hear.
//!
//! The record moves at two points only. It turns to `Generated` when it is
//! told that the image was made and stored, and back to `Awaiting`, one id
//! further, when it is told that the image went out. After either move the
//! next action is to save the record, and nothing else is asked for until
//! the save is confirmed. While the record says `Generated` the image in
//! hand is tried again and again, with growing waits, and never made anew.

use crate::backoff::{ascending, delay_of, BackoffPolicy};
use crate::names::image_name;
use crate::publish::{post_of, Post, PostView, PostingError};
use crate::record::{BadStateError, Phase, State};
use crate::schedule::{Due, Schedule};
use crate::time::{clock_now, Timestamp, NANOS_PER_SEC};
use vstd::prelude::*;
use vstd::string::StringExecFns;

verus! {

/// What a `BadStateError` of the controller says.
pub const UNEXPECTED_EVENT: &'static str = "The event answers nothing that was asked for";

/// What `Fatal::Production` reads as.
pub const PRODUCTION_FAILED: &'static str = "Problem generating image";

/// What `Fatal::Persist` reads as.
pub const PERSIST_FAILED: &'static str = "Unable to persist state";

/// What `Fatal::Reload` reads as.
pub const RELOAD_FAILED: &'static str =
    "Wanted to retry uploading image but was unable to open its file";

/// What `Fatal::Publish` reads as.
pub const PUBLISH_FAILED: &'static str = "Failed to post status";

/// How long the controller runs.
#[derive(Clone, Copy, Debug, PartialEq, Eq)]
pub enum Mode {
    /// Post on schedule, for ever, trying a failed post again.
    Forever,
    /// Post once, at once and without a second attempt, then stop.
    Once,
}

/// The one thing the controller waits to hear.
#[derive(Clone, Copy, Debug, PartialEq, Eq)]
pub enum Pending {
    /// That it is time to look again: at the start, and after a wait.
    Tick,
    /// How making and storing the image went.
    Production,
    /// How saving the record went.
    Save,
    /// How reading the stored image back went.
    Load,
    /// How the post went.
    Publish,
    /// Nothing more: the controller has stopped.
    Nothing,
}

/// Why the controller gave up.
#[derive(Clone, Copy, Debug, PartialEq, Eq)]
pub enum Fatal {
    /// The image could not be made or stored.
    Production,
    /// The record could not be saved.
    Persist,
    /// The stored image could not be read back.
    Reload,
    /// The post failed in a run that posts once.
    Publish,
}

impl Fatal {
    /// What there is to say about giving up for this reason.
    pub open spec fn complaint(self) -> Seq<char> {
        match self {
            Fatal::Production => PRODUCTION_FAILED@,
            Fatal::Persist => PERSIST_FAILED@,
            Fatal::Reload => RELOAD_FAILED@,
            Fatal::Publish => PUBLISH_FAILED@,
        }
    }

    /// The reason as one line of text.
    pub fn message(&self) -> (text: String)
        ensures
            text@ == self.complaint(),
    {
        match self {
            Fatal::Production => String::from_str(PRODUCTION_FAILED),
            Fatal::Persist => String::from_str(PERSIST_FAILED),
            Fatal::Reload => String::from_str(RELOAD_FAILED),
            Fatal::Publish => String::from_str(PUBLISH_FAILED),
        }
    }
}

/// What happened.
#[derive(Debug)]
pub enum Event {
    /// The controller was started, or a wait is over.
    Tick,
    /// The image was made and stored; these are its bytes.
    Produced(Vec<u8>),
    /// The image could not be made or stored.
    ProduceFailed,
    /// The record is saved.
    Saved,
    /// The record could not be saved.
    SaveFailed,
    /// The stored image was read back; these are its bytes.
    Loaded(Vec<u8>),
    /// The stored image could not be read back.
    LoadFailed,
    /// The post went out.
    Published,
    /// The post did not go out.
    PublishFailed(PostingError),
}

/// An event as plain data. Why a post failed does not matter to the
/// controller, and is left out.
pub ghost enum EventView {
    Tick,
    Produced(Seq<u8>),
    ProduceFailed,
    Saved,
    SaveFailed,
    Loaded(Seq<u8>),
    LoadFailed,
    Published,
    PublishFailed,
}

impl View for Event {
    type V = EventView;

    open spec fn view(&self) -> EventView {
        match self {
            Event::Tick => EventView::Tick,
            Event::Produced(image) => EventView::Produced(image@),
            Event::ProduceFailed => EventView::ProduceFailed,
            Event::Saved => EventView::Saved,
            Event::SaveFailed => EventView::SaveFailed,
            Event::Loaded(image) => EventView::Loaded(image@),
            Event::LoadFailed => EventView::LoadFailed,
            Event::Published => EventView::Published,
            Event::PublishFailed(_) => EventView::PublishFailed,
        }
    }
}

/// What to do next.
#[derive(Debug, PartialEq, Eq)]
pub enum Action {
    /// Wait this many nanoseconds, then report `Tick`.
    Wait(u128),
    /// Make the image, store it under this file name, then report
    /// `Produced` with its bytes, or `ProduceFailed`.
    Produce(String),
    /// Save this record, then report `Saved` or `SaveFailed`.
    Save(State),
    /// Read the image back from this file, then report `Loaded` with its
    /// bytes, or `LoadFailed`.
    Load(String),
    /// Send this post, then report `Published` or `PublishFailed`.
    Publish(Post),
    /// Stop: the one post of this run is out and recorded.
    Done,
    /// Stop: this went wrong, and trying again would not help.
    Halt(Fatal),
}

/// An action as plain data.
pub ghost enum ActionView {
    Wait(u128),
    Produce(Seq<char>),
    Save(State),
    Load(Seq<char>),
    Publish(PostView),
    Done,
    Halt(Fatal),
}

impl View for Action {
    type V = ActionView;

    open spec fn view(&self) -> ActionView {
        match self {
            Action::Wait(nanos) => ActionView::Wait(*nanos),
            Action::Produce(file) => ActionView::Produce(file@),
            Action::Save(state) => ActionView::Save(*state),
            Action::Load(file) => ActionView::Load(file@),
            Action::Publish(post) => ActionView::Publish(post@),
            Action::Done => ActionView::Done,
            Action::Halt(why) => ActionView::Halt(*why),
        }
    }
}

/// The controller as plain data.
pub ghost struct PosterView {
    /// The record.
    pub state: State,
    /// The posts that failed since the last one that went out.
    pub attempt: nat,
    /// The image in hand, if its bytes are in memory.
    pub image: Option<Seq<u8>>,
    /// The offset drawn for the production that is being waited for.
    pub offset: Option<i64>,
    /// What the controller waits to hear.
    pub pending: Pending,
    /// How long the controller runs.
    pub mode: Mode,
    /// When productions are due.
    pub schedule: Schedule,
    /// The waits between failed posts.
    pub delays: Seq<u64>,
}

impl PosterView {
    /// What holds of every controller, from its making on: there is a wait
    /// for every failure; bytes are in hand only for an image that is made;
    /// and what is waited for fits the record.
    pub open spec fn wf(self) -> bool {
        &&& self.delays.len() > 0
        &&& ascending(self.delays)
        &&& self.state.phase is Awaiting ==> self.image is None
        &&& self.pending is Production ==> self.state.phase is Awaiting
        &&& self.pending is Publish ==> self.state.phase is Generated && self.image is Some
        &&& self.pending is Load ==> self.state.phase is Generated && self.image is None
        &&& self.pending is Save && self.state.phase is Generated ==> self.image is Some
    }

    /// A controller fresh from its making: it waits for its first tick,
    /// with nothing in hand.
    pub open spec fn start(
        state: State,
        schedule: Schedule,
        delays: Seq<u64>,
        mode: Mode,
    ) -> PosterView {
        PosterView {
            state,
            attempt: 0,
            image: None,
            offset: None,
            pending: Pending::Tick,
            mode,
            schedule,
            delays,
        }
    }

    /// Whether `event` answers what the controller waits to hear.
    pub open spec fn expects(self, event: EventView) -> bool {
        match event {
            EventView::Tick => self.pending is Tick,
            EventView::Produced(_) => self.pending is Production,
            EventView::ProduceFailed => self.pending is Production,
            EventView::Saved => self.pending is Save,
            EventView::SaveFailed => self.pending is Save,
            EventView::Loaded(_) => self.pending is Load,
            EventView::LoadFailed => self.pending is Load,
            EventView::Published => self.pending is Publish,
            EventView::PublishFailed => self.pending is Publish,
        }
    }

    /// Whether the numbers still have room for `event`: a post that went
    /// out needs an id after the current one, and a post that failed and
    /// will be tried again needs room to be counted. An event that does
    /// not move a number always has room.
    pub open spec fn has_room_for(self, event: EventView) -> bool {
        &&& event is Published && self.pending is Publish ==> self.state.id < u32::MAX
        &&& event is PublishFailed && self.pending is Publish && self.mode is Forever
            ==> self.attempt < usize::MAX
    }

    /// The controller stops for good.
    pub open spec fn halted(self, why: Fatal) -> (PosterView, ActionView) {
        (PosterView { pending: Pending::Nothing, ..self }, ActionView::Halt(why))
    }

    /// The controller asks for the image of the current id to be made.
    pub open spec fn producing(self) -> (PosterView, ActionView) {
        (
            PosterView { pending: Pending::Production, ..self },
            ActionView::Produce(image_name(self.state.id)),
        )
    }

    /// What the controller does when nothing is in flight. An image that is
    /// made is posted, from memory or after reading it back. An image that
    /// is yet to be made is asked for when it is due: at once in a run that
    /// posts once or has never posted, else by the schedule, with the offset
    /// drawn earlier for this production or, failing that, `offset`.
    pub open spec fn resumed(self, now: Timestamp, offset: i64) -> (PosterView, ActionView) {
        match self.state.phase {
            Phase::Generated => match self.image {
                Some(image) => (
                    PosterView { pending: Pending::Publish, ..self },
                    ActionView::Publish(post_of(self.state.id, image)),
                ),
                None => (
                    PosterView { pending: Pending::Load, ..self },
                    ActionView::Load(image_name(self.state.id)),
                ),
            },
            Phase::Awaiting => if self.mode is Once || self.state.last_post is None {
                self.producing()
            } else {
                let drawn = match self.offset {
                    Some(earlier) => earlier,
                    None => offset,
                };
                let settled = PosterView { offset: Some(drawn), ..self };
                match self.schedule.due(self.state.last_post, drawn, now) {
                    Due::Now => settled.producing(),
                    Due::In(wait) => (
                        PosterView { pending: Pending::Tick, ..settled },
                        ActionView::Wait(wait),
                    ),
                }
            },
        }
    }

    /// The nanoseconds to wait after failure number `attempt`.
    pub open spec fn backoff_nanos(self, attempt: nat) -> u128 {
        (delay_of(self.delays, attempt as int) * NANOS_PER_SEC) as u128
    }

    /// What the controller does about an event that it expects, at `now`,
    /// with `offset` at hand in case a production has to be scheduled.
    pub open spec fn reacted(
        self,
        event: EventView,
        now: Timestamp,
        offset: i64,
    ) -> (PosterView, ActionView) {
        match event {
            EventView::Tick => self.resumed(now, offset),
            EventView::Produced(image) => {
                let made = self.state.after_production();
                (
                    PosterView { state: made, image: Some(image), pending: Pending::Save, ..self },
                    ActionView::Save(made),
                )
            },
            EventView::ProduceFailed => self.halted(Fatal::Production),
            EventView::Saved => if self.mode is Once && self.state.phase is Awaiting {
                (PosterView { pending: Pending::Nothing, ..self }, ActionView::Done)
            } else {
                self.resumed(now, offset)
            },
            EventView::SaveFailed => self.halted(Fatal::Persist),
            EventView::Loaded(image) => {
                let holding = PosterView { image: Some(image), ..self };
                holding.resumed(now, offset)
            },
            EventView::LoadFailed => self.halted(Fatal::Reload),
            EventView::Published => {
                let posted = self.state.after_post(now);
                (
                    PosterView {
                        state: posted,
                        attempt: 0,
                        image: None,
                        offset: None,
                        pending: Pending::Save,
                        ..self
                    },
                    ActionView::Save(posted),
                )
            },
            EventView::PublishFailed => match self.mode {
                Mode::Once => self.halted(Fatal::Publish),
                Mode::Forever => (
                    PosterView { attempt: self.attempt + 1, pending: Pending::Tick, ..self },
                    ActionView::Wait(self.backoff_nanos(self.attempt + 1)),
                ),
            },
        }
    }

    /// One step of the controller: an event that it expects moves it on and
    /// yields an action; any other event is refused and changes nothing.
    pub open spec fn step(
        self,
        event: EventView,
        now: Timestamp,
        offset: i64,
    ) -> (PosterView, Option<ActionView>) {
        if self.expects(event) {
            let (next, action) = self.reacted(event, now, offset);
            (next, Some(action))
        } else {
            (self, None)
        }
    }

    /// Whether this step schedules a production, and so uses the offset
    /// that it is handed.
    pub open spec fn draws(self, event: EventView) -> bool {
        &&& (event is Tick && self.pending is Tick) || (event is Saved && self.pending is Save)
        &&& self.mode is Forever
        &&& self.state.phase is Awaiting
        &&& self.state.last_post is Some
        &&& self.offset is None
    }
}

/// The controller.
#[derive(Debug)]
pub struct Poster {
    state: State,
    attempt: usize,
    image: Option<Vec<u8>>,
    offset: Option<i64>,
    pending: Pending,
    mode: Mode,
    schedule: Schedule,
    backoff: BackoffPolicy,
}

impl View for Poster {
    type V = PosterView;

    closed spec fn view(&self) -> PosterView {
        PosterView {
            state: self.state,
            attempt: self.attempt as nat,
            image: match self.image {
                Some(bytes) => Some(bytes@),
                None => None,
            },
            offset: self.offset,
            pending: self.pending,
            mode: self.mode,
            schedule: self.schedule,
            delays: self.backoff@,
        }
    }
}

fn copy_of(image: &Option<Vec<u8>>) -> (copy: Option<Vec<u8>>)
    ensures
        match (image, copy) {
            (Some(bytes), Some(same)) => same@ == bytes@,
            (None, None) => true,
            _ => false,
        },
{
    match image {
        Some(bytes) => {
            let same = bytes.clone();
            assert(same@ =~= bytes@);
            Some(same)
        },
        None => None,
    }
}

impl Poster {
    /// A controller that starts from `state`, as it was found in storage,
    /// with nothing in memory and its first tick yet to come.
    pub fn new(
        state: State,
        schedule: Schedule,
        backoff: BackoffPolicy,
        mode: Mode,
    ) -> (poster: Poster)
        requires
            backoff.wf(),
        ensures
            poster@ == PosterView::start(state, schedule, backoff@, mode),
            poster@.wf(),
    {
        Poster {
            state,
            attempt: 0,
            image: None,
            offset: None,
            pending: Pending::Tick,
            mode,
            schedule,
            backoff,
        }
    }

    /// Whether the numbers still have room for `event`.
    pub fn has_room_for(&self, event: &Event) -> (yes: bool)
        ensures
            yes == self@.has_room_for(event@),
    {
        match (event, self.pending, self.mode) {
            (Event::Published, Pending::Publish, _) => self.state.id < u32::MAX,
            (Event::PublishFailed(_), Pending::Publish, Mode::Forever) => {
                self.attempt < usize::MAX
            },
            _ => true,
        }
    }

    /// Whether a step on `event` would use the offset that it is handed.
    pub fn draws(&self, event: &Event) -> (yes: bool)
        ensures
            yes == self@.draws(event@),
    {
        let asked = match (event, self.pending) {
            (Event::Tick, Pending::Tick) => true,
            (Event::Saved, Pending::Save) => true,
            _ => false,
        };
        let forever = match self.mode {
            Mode::Forever => true,
            Mode::Once => false,
        };
        let awaiting = match self.state.phase {
            Phase::Awaiting => true,
            Phase::Generated => false,
        };
        asked && forever && awaiting && self.state.last_post.is_some() && self.offset.is_none()
    }

    fn halt(&mut self, why: Fatal) -> (action: Action)
        ensures
            (final(self)@, action@) == old(self)@.halted(why),
    {
        self.pending = Pending::Nothing;
        Action::Halt(why)
    }

    fn produce(&mut self) -> (action: Action)
        ensures
            (final(self)@, action@) == old(self)@.producing(),
    {
        self.pending = Pending::Production;
        Action::Produce(self.state.get_filename())
    }

    fn resume(&mut self, now: Timestamp, offset: i64) -> (action: Action)
        ensures
            (final(self)@, action@) == old(self)@.resumed(now, offset),
    {
        match self.state.phase {
            Phase::Generated => match copy_of(&self.image) {
                Some(image) => {
                    self.pending = Pending::Publish;
                    Action::Publish(self.state.post_status(image))
                },
                None => {
                    self.pending = Pending::Load;
                    Action::Load(self.state.get_filename())
                },
            },
            Phase::Awaiting => {
                let once = match self.mode {
                    Mode::Once => true,
                    Mode::Forever => false,
                };
                if once || self.state.last_post.is_none() {
                    self.produce()
                } else {
                    let drawn: i64 = match self.offset {
                        Some(earlier) => earlier,
                        None => offset,
                    };
                    self.offset = Some(drawn);
                    match self.schedule.check(self.state.last_post, drawn, now) {
                        Due::Now => self.produce(),
                        Due::In(wait) => {
                            self.pending = Pending::Tick;
                            Action::Wait(wait)
                        },
                    }
                }
            },
        }
    }

    fn react(&mut self, event: Event, now: Timestamp, offset: i64) -> (action: Action)
        requires
            old(self)@.wf(),
            old(self)@.expects(event@),
            old(self)@.has_room_for(event@),
        ensures
            (final(self)@, action@) == old(self)@.reacted(event@, now, offset),
    {
        match event {
            Event::Tick => self.resume(now, offset),
            Event::Produced(image) => {
                let made = self.state.generated();
                self.state = made;
                self.image = Some(image);
                self.pending = Pending::Save;
                Action::Save(made)
            },
            Event::ProduceFailed => self.halt(Fatal::Production),
            Event::Saved => {
                let finished = match (self.mode, self.state.phase) {
                    (Mode::Once, Phase::Awaiting) => true,
                    _ => false,
                };
                if finished {
                    self.pending = Pending::Nothing;
                    Action::Done
                } else {
                    self.resume(now, offset)
                }
            },
            Event::SaveFailed => self.halt(Fatal::Persist),
            Event::Loaded(image) => {
                self.image = Some(image);
                self.resume(now, offset)
            },
            Event::LoadFailed => self.halt(Fatal::Reload),
            Event::Published => {
                let posted = self.state.posted_at(now);
                self.state = posted;
                self.attempt = 0;
                self.image = None;
                self.offset = None;
                self.pending = Pending::Save;
                Action::Save(posted)
            },
            Event::PublishFailed(_) => match self.mode {
                Mode::Once => self.halt(Fatal::Publish),
                Mode::Forever => {
                    self.attempt = self.attempt + 1;
                    self.pending = Pending::Tick;
                    let secs: u64 = self.backoff.delay(self.attempt);
                    let wait: u128 = (secs as u128) * 1_000_000_000;
                    Action::Wait(wait)
                },
            },
        }
    }

    /// Takes one event, at the instant `now`, with the offset `offset` at
    /// hand in case a production has to be scheduled. An event that answers
    /// what the controller waits to hear moves it on and yields the next
    /// action; any other is refused and leaves the controller as it was.
    pub fn step(
        &mut self,
        event: Event,
        now: Timestamp,
        offset: i64,
    ) -> (answer: Result<Action, BadStateError>)
        requires
            old(self)@.wf(),
            old(self)@.has_room_for(event@),
        ensures
            final(self)@ == old(self)@.step(event@, now, offset).0,
            final(self)@.wf(),
            match answer {
                Ok(action) => old(self)@.step(event@, now, offset).1 == Some(action@),
                Err(refusal) => {
                    &&& old(self)@.step(event@, now, offset).1 is None
                    &&& refusal.0@ == UNEXPECTED_EVENT@
                },
            },
    {
        let expected = match (&event, self.pending) {
            (Event::Tick, Pending::Tick) => true,
            (Event::Produced(_), Pending::Production) => true,
            (Event::ProduceFailed, Pending::Production) => true,
            (Event::Saved, Pending::Save) => true,
            (Event::SaveFailed, Pending::Save) => true,
            (Event::Loaded(_), Pending::Load) => true,
            (Event::LoadFailed, Pending::Load) => true,
            (Event::Published, Pending::Publish) => true,
            (Event::PublishFailed(_), Pending::Publish) => true,
            _ => false,
        };
        if expected {
            proof {
                lemma_step_keeps_wf(self@, event@, now, offset);
            }
            Ok(self.react(event, now, offset))
        } else {
            Err(BadStateError(String::from_str(UNEXPECTED_EVENT)))
        }
    }

    /// Takes one event as `step` does, at the instant that the wall clock
    /// shows, and with an offset drawn at random where a production has to
    /// be scheduled.
    pub fn advance(&mut self, event: Event) -> (answer: Result<Action, BadStateError>)
        requires
            old(self)@.wf(),
            old(self)@.has_room_for(event@),
            old(self)@.draws(event@) ==> 0 < old(self)@.schedule.jitter,
        ensures
            final(self)@.wf(),
            exists|now: Timestamp, offset: i64| #[trigger]
                advanced(old(self)@, event@, now, offset, final(self)@, answered(answer)),
            answer matches Err(refusal) ==> refusal.0@ == UNEXPECTED_EVENT@,
    {
        let now = clock_now();
        let offset: i64 = if self.draws(&event) {
            self.schedule.draw_offset()
        } else {
            0
        };
        let ghost before = self@;
        let ghost told = event@;
        let answer = self.step(event, now, offset);
        assert(advanced(before, told, now, offset, self@, answered(answer)));
        answer
    }

    /// The record as the controller holds it.
    pub fn state(&self) -> (state: State)
        ensures
            state == self@.state,
    {
        self.state
    }

    /// The posts that failed since the last one that went out.
    pub fn attempt(&self) -> (attempt: usize)
        ensures
            attempt == self@.attempt,
    {
        self.attempt
    }

    /// What the controller waits to hear.
    pub fn pending(&self) -> (pending: Pending)
        ensures
            pending == self@.pending,
    {
        self.pending
    }

    /// How long the controller runs.
    pub fn mode(&self) -> (mode: Mode)
        ensures
            mode == self@.mode,
    {
        self.mode
    }

    /// Whether the bytes of the image in hand are in memory.
    pub fn has_image(&self) -> (yes: bool)
        ensures
            yes == self@.image is Some,
    {
        self.image.is_some()
    }
}

/// The answer of a step as plain data: the action, or nothing where the
/// event was refused.
pub open spec fn answered(answer: Result<Action, BadStateError>) -> Option<ActionView> {
    match answer {
        Ok(action) => Some(action@),
        Err(_) => None,
    }
}

/// What `advance` does, given the clock reading and the offset that it
/// got: the step on them, where the offset lies within the jitter if it was
/// drawn and is zero if it was not.
pub open spec fn advanced(
    before: PosterView,
    event: EventView,
    now: Timestamp,
    offset: i64,
    after: PosterView,
    answer: Option<ActionView>,
) -> bool {
    &&& before.draws(event) ==> -before.schedule.jitter <= offset < before.schedule.jitter
    &&& !before.draws(event) ==> offset == 0
    &&& before.step(event, now, offset) == (after, answer)
}

/// Every step leaves a well-formed controller well-formed.
pub proof fn lemma_step_keeps_wf(
    before: PosterView,
    event: EventView,
    now: Timestamp,
    offset: i64,
)
    requires
        before.wf(),
    ensures
        before.step(event, now, offset).0.wf(),
{
}

} // verus!
