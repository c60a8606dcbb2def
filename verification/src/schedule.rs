//! When the next image is due.
//!
//! The next production is scheduled a nominal interval after the last
//! successful post, moved by a random offset of at most the jitter either
//! way. A bot that has never posted is due at once. The rule only computes:
//! whoever asks does the waiting, and asks again afterwards.

use crate::time::{Timestamp, NANOS_PER_SEC};
use rand::Rng;
use vstd::prelude::*;

verus! {

/// The seconds between two posts when nothing else is configured.
pub fn default_sleep_time() -> (secs: i64)
    ensures
        secs == 3600,
{
    3600
}

/// The seconds of jitter when nothing else is configured.
pub fn default_jitter() -> (secs: i64)
    ensures
        secs == 300,
{
    300
}

/// The answer of the schedule: produce now, or wait this many nanoseconds
/// and ask again.
#[derive(Clone, Copy, Debug, PartialEq, Eq)]
pub enum Due {
    Now,
    In(u128),
}

/// The nominal interval between posts and the bound on its random offset,
/// both in seconds.
#[derive(Clone, Copy, Debug, PartialEq, Eq)]
pub struct Schedule {
    pub sleep_time: i64,
    pub jitter: i64,
}

/// What to do at `now` about a production scheduled for the instant `at`,
/// both in nanoseconds since the start of 1970.
pub open spec fn wait_until(at: int, now: int) -> Due {
    if now >= at {
        Due::Now
    } else {
        Due::In((at - now) as u128)
    }
}

impl Schedule {
    /// The scheduled instant of the production that follows a post made at
    /// `last_post`, in nanoseconds since the start of 1970, when the random
    /// offset came out as `offset` seconds.
    pub open spec fn scheduled(self, last_post: Timestamp, offset: i64) -> int {
        last_post.as_nanos() + (self.sleep_time + offset) * NANOS_PER_SEC
    }

    /// The answer at `now`: due at once if nothing was ever posted or the
    /// scheduled instant has been reached, else the wait that is left.
    pub open spec fn due(self, last_post: Option<Timestamp>, offset: i64, now: Timestamp) -> Due {
        match last_post {
            None => Due::Now,
            Some(posted) => wait_until(self.scheduled(posted, offset), now.as_nanos()),
        }
    }

    /// The scheduled instant of the next production, in nanoseconds since
    /// the start of 1970.
    pub fn scheduled_at(&self, last_post: Timestamp, offset: i64) -> (at: i128)
        ensures
            at == self.scheduled(last_post, offset),
    {
        let pause: i128 = (self.sleep_time as i128) + (offset as i128);
        last_post.to_nanos() + pause * NANOS_PER_SEC
    }

    /// Decides at `now` whether the next production is due, given the time
    /// of the last post and the offset that was drawn for this cycle.
    pub fn check(&self, last_post: Option<Timestamp>, offset: i64, now: Timestamp) -> (answer: Due)
        ensures
            answer == self.due(last_post, offset, now),
    {
        match last_post {
            None => Due::Now,
            Some(posted) => {
                let at: i128 = self.scheduled_at(posted, offset);
                let current: i128 = now.to_nanos();
                if current >= at {
                    Due::Now
                } else {
                    Due::In((at - current) as u128)
                }
            },
        }
    }

    /// Draws the random offset of one cycle: a whole number of seconds, at
    /// least `-jitter` and less than `jitter`.
    pub fn draw_offset(&self) -> (offset: i64)
        requires
            0 < self.jitter,
        ensures
            -self.jitter <= offset < self.jitter,
    {
        random_between(0 - self.jitter, self.jitter)
    }
}

impl Default for Schedule {
    /// An hour between posts, moved by up to five minutes.
    fn default() -> (schedule: Schedule)
        ensures
            schedule == (Schedule { sleep_time: 3600, jitter: 300 }),
    {
        Schedule { sleep_time: default_sleep_time(), jitter: default_jitter() }
    }
}

/// Draws a number with `rand::Rng::gen_range` on the generator that
/// `rand::thread_rng` gives. The contract claims what the method documents:
/// the number is at least `low` and less than `high`. The method panics
/// unless `low < high`, which the precondition therefore demands.
#[verifier::external_body]
fn random_between(low: i64, high: i64) -> (drawn: i64)
    requires
        low < high,
    ensures
        low <= drawn < high,
{
    rand::thread_rng().gen_range(low, high)
}

/// Whatever offset within the jitter is drawn, the scheduled instant lies
/// no earlier than the interval less the jitter after the last post, and no
/// later than the interval plus the jitter after it.
pub proof fn lemma_scheduled_within_jitter(schedule: Schedule, last_post: Timestamp, offset: i64)
    requires
        -schedule.jitter <= offset <= schedule.jitter,
    ensures
        ({
            let at = schedule.scheduled(last_post, offset);
            let earliest = last_post.as_nanos() + (schedule.sleep_time - schedule.jitter)
                * NANOS_PER_SEC;
            let latest = last_post.as_nanos() + (schedule.sleep_time + schedule.jitter)
                * NANOS_PER_SEC;
            earliest <= at <= latest
        }),
{
}

/// A bot that has never posted is due at once, whatever the clock, the
/// interval, the jitter and the offset.
pub proof fn lemma_never_posted_is_due(schedule: Schedule, offset: i64, now: Timestamp)
    ensures
        schedule.due(None, offset, now) == Due::Now,
{
}

/// The schedule says "now" exactly when the clock has reached the scheduled
/// instant, and otherwise names the wait that ends exactly at that instant.
pub proof fn lemma_wait_ends_when_due(
    schedule: Schedule,
    last_post: Timestamp,
    offset: i64,
    now: Timestamp,
)
    ensures
        ({
            let at = schedule.scheduled(last_post, offset);
            let answer = schedule.due(Some(last_post), offset, now);
            &&& answer is Now <==> now.as_nanos() >= at
            &&& answer matches Due::In(wait) ==> now.as_nanos() + wait == at
        }),
{
}

} // verus!
