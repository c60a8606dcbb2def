//! What holds of the controller, over single steps and over whole runs.
//!
//! The laws speak of the controller as plain data, and of its steps as the
//! contract of `Poster::step` states them. They say that failures cost
//! waits and nothing else, that one success moves the id on by exactly one,
//! that an image once made is posted as it is and never made anew, that the
//! record moves only where it is then saved, and that productions keep to
//! the schedule.

use crate::names::image_name;
use crate::poster::{ActionView, EventView, Fatal, Mode, PosterView};
use crate::publish::post_of;
use crate::schedule::Schedule;
use crate::time::{Timestamp, NANOS_PER_SEC};
use vstd::prelude::*;

verus! {

/// One thing told to the controller: the event, the clock reading and the
/// offset at hand.
pub ghost struct Input {
    pub event: EventView,
    pub now: Timestamp,
    pub offset: i64,
}

impl PosterView {
    /// The controller after it was told `inputs`, one after the other.
    pub open spec fn run(self, inputs: Seq<Input>) -> PosterView
        decreases inputs.len(),
    {
        if inputs.len() == 0 {
            self
        } else {
            let last = inputs.last();
            self.run(inputs.drop_last()).step(last.event, last.now, last.offset).0
        }
    }
}

/// `inputs` tells of failed posts and nothing else: a failure, the tick that
/// ends the wait after it, and so on.
pub open spec fn failed_rounds(inputs: Seq<Input>) -> bool {
    &&& inputs.len() % 2 == 0
    &&& forall|i: int|
        0 <= i < inputs.len() ==> (#[trigger] inputs[i]).event == if i % 2 == 0 {
            EventView::PublishFailed
        } else {
            EventView::Tick
        }
}

/// A failed post costs a wait and nothing else. The wait is the one that
/// the backoff table gives for the failures so far; after it the same post,
/// with the same image under the same id, is asked for again; and but for
/// the count of failures the controller is as it was.
pub proof fn lemma_retry_posts_same_image(
    before: PosterView,
    failed_at: Timestamp,
    failed_offset: i64,
    woke_at: Timestamp,
    woke_offset: i64,
)
    requires
        before.wf(),
        before.pending is Publish,
        before.mode is Forever,
    ensures
        ({
            let (waiting, wait) = before.step(EventView::PublishFailed, failed_at, failed_offset);
            let (retrying, retry) = waiting.step(EventView::Tick, woke_at, woke_offset);
            &&& wait == Some(ActionView::Wait(before.backoff_nanos(before.attempt + 1)))
            &&& retry == Some(ActionView::Publish(post_of(before.state.id, before.image->0)))
            &&& retrying == PosterView { attempt: before.attempt + 1, ..before }
        }),
{
}

/// However many posts fail in a row, the record and the image in hand stay
/// as they were, and the controller ends up waiting for the outcome of the
/// same post once more.
pub proof fn lemma_failures_change_nothing(before: PosterView, inputs: Seq<Input>)
    requires
        before.wf(),
        before.pending is Publish,
        before.mode is Forever,
        failed_rounds(inputs),
    ensures
        before.run(inputs) == (PosterView {
            attempt: before.attempt + inputs.len() / 2,
            ..before
        }),
    decreases inputs.len(),
{
    if inputs.len() == 0 {
        assert(before.run(inputs) == before);
    } else {
        let wake = inputs.last();
        let fail = inputs.drop_last().last();
        let earlier = inputs.drop_last().drop_last();
        assert(wake == inputs[inputs.len() - 1]);
        assert(fail == inputs[inputs.len() - 2]);
        assert(failed_rounds(earlier)) by {
            assert forall|i: int| 0 <= i < earlier.len() implies (#[trigger] earlier[i]).event
                == if i % 2 == 0 {
                EventView::PublishFailed
            } else {
                EventView::Tick
            } by {
                assert(earlier[i] == inputs[i]);
            }
        }
        lemma_failures_change_nothing(before, earlier);
        let middle = before.run(earlier);
        lemma_retry_posts_same_image(middle, fail.now, fail.offset, wake.now, wake.offset);
        assert(before.run(inputs.drop_last()) == middle.step(
            fail.event,
            fail.now,
            fail.offset,
        ).0);
    }
}

/// After any number of failed posts and then one that goes out, the id has
/// moved on by exactly one: the failures moved nothing, and the success
/// moved the record to the next id, timed the post, and cleared the count
/// of failures and the image in hand. The record as it then stands is what
/// is handed out to be saved.
pub proof fn lemma_one_success_one_id(
    before: PosterView,
    failures: Seq<Input>,
    now: Timestamp,
    offset: i64,
)
    requires
        before.wf(),
        before.pending is Publish,
        before.mode is Forever,
        before.state.id < u32::MAX,
        failed_rounds(failures),
    ensures
        ({
            let (after, action) = before.run(failures).step(EventView::Published, now, offset);
            &&& after.state.id == before.state.id + 1
            &&& after.state == before.state.after_post(now)
            &&& after.attempt == 0
            &&& after.image is None
            &&& action == Some(ActionView::Save(after.state))
        }),
{
    lemma_failures_change_nothing(before, failures);
}

/// An image that is made is never made anew. While the record says
/// `Generated`, no step asks for a production, the id stays unless the post
/// went out, and bytes in hand stay in hand until then.
pub proof fn lemma_made_image_is_kept(
    before: PosterView,
    event: EventView,
    now: Timestamp,
    offset: i64,
)
    requires
        before.wf(),
        before.state.phase is Generated,
    ensures
        ({
            let (after, action) = before.step(event, now, offset);
            &&& !(action matches Some(ActionView::Produce(_)))
            &&& !(event is Published && before.expects(event)) ==> after.state == before.state
            &&& !(event is Published && before.expects(event)) && before.image is Some
                ==> after.image == before.image
        }),
{
}

/// The record moves at two points only: when the image is reported made
/// and stored, and when the post is reported out. At both, and at no other
/// step, the action is to save the record as it then stands; so nothing
/// else is asked for before the move is saved.
pub proof fn lemma_record_moves_are_saved(
    before: PosterView,
    event: EventView,
    now: Timestamp,
    offset: i64,
)
    requires
        before.wf(),
    ensures
        ({
            let (after, action) = before.step(event, now, offset);
            let moved = before.expects(event) && (event is Produced || event is Published);
            &&& moved <==> action == Some(ActionView::Save(after.state))
            &&& !moved ==> after.state == before.state
            &&& before.expects(event) && event is Produced ==> after.state
                == before.state.after_production() && after.image == Some(event->Produced_0)
            &&& before.expects(event) && event is Published ==> after.state
                == before.state.after_post(now)
            &&& action matches Some(ActionView::Save(_)) ==> after.pending is Save
        }),
{
}

/// A post is only ever asked for when the record says `Generated`, with the
/// bytes that were last reported made or read back, under the current id.
pub proof fn lemma_posts_what_is_in_hand(
    before: PosterView,
    event: EventView,
    now: Timestamp,
    offset: i64,
)
    requires
        before.wf(),
    ensures
        ({
            let (after, action) = before.step(event, now, offset);
            action matches Some(ActionView::Publish(post)) ==> {
                &&& after.state.phase is Generated
                &&& after.state == before.state
                &&& after.image == Some(post.image)
                &&& post == post_of(before.state.id, post.image)
                &&& event matches EventView::Loaded(bytes) ==> post.image == bytes
                &&& !(event is Loaded) ==> before.image == Some(post.image)
            }
        }),
{
}

/// What is read back after a restart is what was stored. A production is
/// told to store the image under the name of the current id. Once it is
/// reported done the record says `Generated`, under that same id, and is
/// handed out to be saved. A controller that later starts on that record,
/// in whatever mode and with nothing in memory, asks for the image to be
/// read from that same name, and posts the bytes that it is then handed.
pub proof fn lemma_restart_posts_stored_image(
    before: PosterView,
    made: Input,
    restarted: Input,
    read: Input,
    schedule: Schedule,
    delays: Seq<u64>,
    mode: Mode,
)
    requires
        before.wf(),
        before.state.phase is Awaiting,
        made.event is Produced,
        restarted.event is Tick,
        read.event is Loaded,
    ensures
        ({
            let name = image_name(before.state.id);
            let (making, make) = before.producing();
            let (saving, save) = making.step(made.event, made.now, made.offset);
            let fresh = PosterView::start(saving.state, schedule, delays, mode);
            let (loading, load) = fresh.step(restarted.event, restarted.now, restarted.offset);
            let (posting, post) = loading.step(read.event, read.now, read.offset);
            &&& make == ActionView::Produce(name)
            &&& save == Some(ActionView::Save(before.state.after_production()))
            &&& saving.state == before.state.after_production()
            &&& load == Some(ActionView::Load(name))
            &&& post == Some(ActionView::Publish(post_of(before.state.id, read.event->Loaded_0)))
            &&& posting.state == saving.state
        }),
{
}

/// The offset matters only where a production is scheduled: on every other
/// step the controller does the same whatever offset it is handed.
pub proof fn lemma_offset_matters_only_when_drawn(
    before: PosterView,
    event: EventView,
    now: Timestamp,
    offset: i64,
    other: i64,
)
    requires
        before.wf(),
        !before.draws(event),
    ensures
        before.step(event, now, offset) == before.step(event, now, other),
{
}

/// The controller keeps to the schedule. Where it schedules a production
/// with an offset within the jitter, it either asks for the production,
/// and then the interval less the jitter has passed since the last post, or
/// it asks for a wait, and then the wait ends no earlier than that and no
/// later than the interval plus the jitter after the last post. The offset
/// stands until the post is out.
pub proof fn lemma_production_keeps_to_schedule(
    before: PosterView,
    event: EventView,
    now: Timestamp,
    offset: i64,
)
    requires
        before.wf(),
        before.draws(event),
        -before.schedule.jitter <= offset <= before.schedule.jitter,
    ensures
        ({
            let (after, action) = before.step(event, now, offset);
            let last = before.state.last_post->0.as_nanos();
            let pause = before.schedule.sleep_time;
            let jitter = before.schedule.jitter;
            let earliest = last + (pause - jitter) * NANOS_PER_SEC;
            let latest = last + (pause + jitter) * NANOS_PER_SEC;
            &&& after.offset == Some(offset)
            &&& after.state == before.state
            &&& action matches Some(ActionView::Produce(_)) ==> earliest <= now.as_nanos()
            &&& action matches Some(ActionView::Wait(wait)) ==> earliest <= now.as_nanos() + wait
                <= latest
            &&& action is Some && (action->0 is Produce || action->0 is Wait)
        }),
{
}

/// A production that fails stops the controller and leaves the record as it
/// was.
pub proof fn lemma_failed_production_keeps_record(
    before: PosterView,
    now: Timestamp,
    offset: i64,
)
    requires
        before.wf(),
        before.pending is Production,
    ensures
        ({
            let (after, action) = before.step(EventView::ProduceFailed, now, offset);
            &&& after.state == before.state
            &&& after.state.phase is Awaiting
            &&& after.pending is Nothing
            &&& action == Some(ActionView::Halt(Fatal::Production))
        }),
{
}

/// A controller that has stopped stays stopped: it refuses every event.
pub proof fn lemma_stopped_stays_stopped(
    before: PosterView,
    event: EventView,
    now: Timestamp,
    offset: i64,
)
    requires
        before.pending is Nothing,
    ensures
        before.step(event, now, offset) == (before, None::<ActionView>),
{
}

} // verus!
