//! The posting state machine of a bot that publishes a freshly made image on
//! a schedule: the durable record of where it stands, the rule that says when
//! the next image is due, the escalating wait between failed publish
//! attempts, and the controller that turns what happened into what to do
//! next.

pub mod backoff;
pub mod imaging;
pub mod laws;
pub mod names;
pub mod poster;
pub mod publish;
pub mod record;
pub mod schedule;
pub mod time;

pub use backoff::{get_backoff, BackoffPolicy};
pub use imaging::ImageConvertError;
pub use poster::{Action, Event, Fatal, Mode, Pending, Poster};
pub use publish::{Post, PostingError};
pub use record::{BadStateError, Phase, State};
pub use schedule::{default_jitter, default_sleep_time, Due, Schedule};
pub use time::Timestamp;
