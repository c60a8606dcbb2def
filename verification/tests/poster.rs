use cubeglobe_bot::backoff::BackoffPolicy;
use cubeglobe_bot::poster::{Action, Event, Fatal, Mode, Pending, Poster};
use cubeglobe_bot::publish::{Post, PostingError};
use cubeglobe_bot::record::{BadStateError, Phase, State};
use cubeglobe_bot::schedule::Schedule;
use cubeglobe_bot::time::Timestamp;

const SECOND: u128 = 1_000_000_000;

fn at(secs: i64) -> Timestamp {
    Timestamp { secs, nanos: 0 }
}

fn forever(state: State) -> Poster {
    Poster::new(state, Schedule::default(), BackoffPolicy::default(), Mode::Forever)
}

fn once(state: State) -> Poster {
    Poster::new(state, Schedule::default(), BackoffPolicy::default(), Mode::Once)
}

fn failure() -> Event {
    Event::PublishFailed(PostingError::ElefrenError(elefren::Error::Other("down".to_string())))
}

fn post(id: u32, image: Vec<u8>) -> Post {
    Post {
        image,
        description: "A procedurally generated landscape composed of cuboid blocks, rendered in isometric perspective.".to_string(),
        mimetype: "image/png".to_string(),
        filename: format!("{}.png", id),
        body: "⛰️".to_string(),
    }
}

fn refusal() -> BadStateError {
    BadStateError("The event answers nothing that was asked for".to_string())
}

#[test]
fn first_post_goes_out_at_the_third_attempt() {
    let image = vec![10u8, 20, 30, 40];
    let mut poster = forever(State { last_post: None, id: 1, phase: Phase::Awaiting });

    assert_eq!(poster.step(Event::Tick, at(100), 0), Ok(Action::Produce("1.png".to_string())));
    assert_eq!(poster.state(), State { last_post: None, id: 1, phase: Phase::Awaiting });

    let made = State { last_post: None, id: 1, phase: Phase::Generated };
    assert_eq!(poster.step(Event::Produced(image.clone()), at(101), 0), Ok(Action::Save(made)));
    assert_eq!(poster.state(), made);
    assert!(poster.has_image());

    assert_eq!(
        poster.step(Event::Saved, at(102), 0),
        Ok(Action::Publish(post(1, image.clone())))
    );

    assert_eq!(poster.step(failure(), at(103), 0), Ok(Action::Wait(30 * SECOND)));
    assert_eq!(poster.attempt(), 1);
    assert_eq!(poster.state(), made);
    assert_eq!(
        poster.step(Event::Tick, at(133), 0),
        Ok(Action::Publish(post(1, image.clone())))
    );

    assert_eq!(poster.step(failure(), at(134), 0), Ok(Action::Wait(60 * SECOND)));
    assert_eq!(poster.attempt(), 2);
    assert_eq!(poster.state(), made);
    assert_eq!(
        poster.step(Event::Tick, at(194), 0),
        Ok(Action::Publish(post(1, image.clone())))
    );

    let now = Timestamp { secs: 200, nanos: 7 };
    let posted = State { last_post: Some(now), id: 2, phase: Phase::Awaiting };
    assert_eq!(poster.step(Event::Published, now, 0), Ok(Action::Save(posted)));
    assert_eq!(poster.state(), posted);
    assert_eq!(poster.attempt(), 0);
    assert!(!poster.has_image());

    assert_eq!(
        poster.step(Event::Saved, now, -100),
        Ok(Action::Wait(3500 * SECOND))
    );
    assert_eq!(poster.pending(), Pending::Tick);
}

#[test]
fn restart_posts_the_stored_image_again() {
    let stored = vec![5u8, 5, 5, 1, 2, 3];
    let record = State { last_post: Some(at(50)), id: 5, phase: Phase::Generated };
    let mut poster = forever(record);
    assert!(!poster.has_image());

    assert_eq!(poster.step(Event::Tick, at(60), 0), Ok(Action::Load("5.png".to_string())));
    assert_eq!(poster.pending(), Pending::Load);
    assert_eq!(
        poster.step(Event::Loaded(stored.clone()), at(61), 0),
        Ok(Action::Publish(post(5, stored.clone())))
    );
    assert_eq!(poster.state(), record);

    assert_eq!(poster.step(failure(), at(62), 0), Ok(Action::Wait(30 * SECOND)));
    assert_eq!(
        poster.step(Event::Tick, at(92), 0),
        Ok(Action::Publish(post(5, stored.clone())))
    );
    assert_eq!(poster.state(), record);
}

#[test]
fn failed_production_in_a_single_run_leaves_the_record() {
    let record = State { last_post: None, id: 1, phase: Phase::Awaiting };
    let mut poster = once(record);
    assert_eq!(poster.step(Event::Tick, at(10), 0), Ok(Action::Produce("1.png".to_string())));
    assert_eq!(
        poster.step(Event::ProduceFailed, at(11), 0),
        Ok(Action::Halt(Fatal::Production))
    );
    assert_eq!(poster.state(), record);
    assert_eq!(poster.pending(), Pending::Nothing);
    assert_eq!(poster.step(Event::Tick, at(12), 0), Err(refusal()));
    assert_eq!(poster.state(), record);
}

#[test]
fn failed_production_in_an_endless_run_is_fatal_too() {
    let record = State { last_post: Some(at(0)), id: 9, phase: Phase::Awaiting };
    let mut poster = forever(record);
    assert_eq!(
        poster.step(Event::Tick, at(1_000_000), 0),
        Ok(Action::Produce("9.png".to_string()))
    );
    assert_eq!(
        poster.step(Event::ProduceFailed, at(1_000_001), 0),
        Ok(Action::Halt(Fatal::Production))
    );
    assert_eq!(poster.state(), record);
}

#[test]
fn any_number_of_failures_moves_the_id_by_one() {
    for failures in 0..12usize {
        let record = State { last_post: None, id: 70, phase: Phase::Generated };
        let mut poster = forever(record);
        assert_eq!(poster.step(Event::Tick, at(0), 0), Ok(Action::Load("70.png".to_string())));
        let image = vec![failures as u8; 3];
        assert_eq!(
            poster.step(Event::Loaded(image.clone()), at(0), 0),
            Ok(Action::Publish(post(70, image.clone())))
        );
        for failed in 1..=failures {
            let wait: u128 = match failed {
                1 => 30,
                2 => 60,
                3 => 300,
                _ => 900,
            };
            assert_eq!(poster.step(failure(), at(1), 0), Ok(Action::Wait(wait * SECOND)));
            assert_eq!(poster.attempt(), failed);
            assert_eq!(poster.state(), record);
            assert_eq!(
                poster.step(Event::Tick, at(2), 0),
                Ok(Action::Publish(post(70, image.clone())))
            );
        }
        let posted = State { last_post: Some(at(3)), id: 71, phase: Phase::Awaiting };
        assert_eq!(poster.step(Event::Published, at(3), 0), Ok(Action::Save(posted)));
        assert_eq!(poster.state().id, 71);
        assert_eq!(poster.attempt(), 0);
    }
}

#[test]
fn single_run_posts_once_and_stops() {
    let image = vec![1u8, 2, 3];
    let mut poster = once(State { last_post: Some(at(1_000)), id: 4, phase: Phase::Awaiting });
    // No wait for the schedule: the last post was a moment ago.
    assert_eq!(poster.step(Event::Tick, at(1_001), 0), Ok(Action::Produce("4.png".to_string())));
    let made = State { last_post: Some(at(1_000)), id: 4, phase: Phase::Generated };
    assert_eq!(poster.step(Event::Produced(image.clone()), at(1_002), 0), Ok(Action::Save(made)));
    assert_eq!(
        poster.step(Event::Saved, at(1_003), 0),
        Ok(Action::Publish(post(4, image.clone())))
    );
    let posted = State { last_post: Some(at(1_004)), id: 5, phase: Phase::Awaiting };
    assert_eq!(poster.step(Event::Published, at(1_004), 0), Ok(Action::Save(posted)));
    assert_eq!(poster.step(Event::Saved, at(1_005), 0), Ok(Action::Done));
    assert_eq!(poster.pending(), Pending::Nothing);
    assert_eq!(poster.state(), posted);
    assert_eq!(poster.step(Event::Tick, at(1_006), 0), Err(refusal()));
}

#[test]
fn single_run_does_not_try_a_failed_post_again() {
    let mut poster = once(State { last_post: None, id: 4, phase: Phase::Generated });
    assert_eq!(poster.step(Event::Tick, at(0), 0), Ok(Action::Load("4.png".to_string())));
    assert_eq!(
        poster.step(Event::Loaded(vec![7u8]), at(0), 0),
        Ok(Action::Publish(post(4, vec![7u8])))
    );
    assert_eq!(poster.step(failure(), at(1), 0), Ok(Action::Halt(Fatal::Publish)));
    assert_eq!(poster.state(), State { last_post: None, id: 4, phase: Phase::Generated });
    assert_eq!(poster.attempt(), 0);
    assert_eq!(poster.step(Event::Tick, at(2), 0), Err(refusal()));
}

#[test]
fn record_that_cannot_be_saved_stops_the_run() {
    let mut poster = forever(State::default());
    assert_eq!(poster.step(Event::Tick, at(0), 0), Ok(Action::Produce("1.png".to_string())));
    assert!(matches!(poster.step(Event::Produced(vec![1u8]), at(0), 0), Ok(Action::Save(_))));
    assert_eq!(poster.step(Event::SaveFailed, at(0), 0), Ok(Action::Halt(Fatal::Persist)));
    assert_eq!(poster.pending(), Pending::Nothing);
    // Nothing is posted on a record whose save is not confirmed.
    assert_eq!(poster.step(Event::Saved, at(0), 0), Err(refusal()));
    assert_eq!(poster.step(Event::Tick, at(0), 0), Err(refusal()));
}

#[test]
fn stored_image_that_cannot_be_read_stops_the_run() {
    let record = State { last_post: None, id: 3, phase: Phase::Generated };
    let mut poster = forever(record);
    assert_eq!(poster.step(Event::Tick, at(0), 0), Ok(Action::Load("3.png".to_string())));
    assert_eq!(poster.step(Event::LoadFailed, at(0), 0), Ok(Action::Halt(Fatal::Reload)));
    assert_eq!(poster.state(), record);
}

#[test]
fn waits_for_the_schedule_and_looks_again() {
    let record = State { last_post: Some(at(1_000)), id: 2, phase: Phase::Awaiting };
    let mut poster = forever(record);
    // Scheduled for 1000 + 3600 - 250 = 4350.
    assert_eq!(poster.step(Event::Tick, at(4_000), -250), Ok(Action::Wait(350 * SECOND)));
    assert_eq!(poster.pending(), Pending::Tick);
    // Woken early, with another offset at hand: the one drawn first stands.
    assert_eq!(poster.step(Event::Tick, at(4_300), 299), Ok(Action::Wait(50 * SECOND)));
    assert_eq!(
        poster.step(Event::Tick, Timestamp { secs: 4_349, nanos: 999_999_999 }, 0),
        Ok(Action::Wait(1))
    );
    assert_eq!(poster.step(Event::Tick, at(4_350), 0), Ok(Action::Produce("2.png".to_string())));
    assert_eq!(poster.state(), record);
}

#[test]
fn overdue_production_starts_at_once() {
    let mut poster = forever(State { last_post: Some(at(1_000)), id: 2, phase: Phase::Awaiting });
    assert_eq!(
        poster.step(Event::Tick, at(1_000_000), 299),
        Ok(Action::Produce("2.png".to_string()))
    );
}

#[test]
fn next_cycle_draws_a_new_offset() {
    let mut poster = forever(State { last_post: Some(at(0)), id: 2, phase: Phase::Awaiting });
    assert_eq!(poster.step(Event::Tick, at(3_000), -300), Ok(Action::Wait(300 * SECOND)));
    assert_eq!(poster.step(Event::Tick, at(3_300), 17), Ok(Action::Produce("2.png".to_string())));
    assert!(matches!(poster.step(Event::Produced(vec![1u8]), at(3_301), 17), Ok(Action::Save(_))));
    assert!(matches!(poster.step(Event::Saved, at(3_302), 17), Ok(Action::Publish(_))));
    assert!(matches!(poster.step(Event::Published, at(3_303), 17), Ok(Action::Save(_))));
    // Scheduled for 3303 + 3600 + 17 = 6920.
    assert_eq!(poster.step(Event::Saved, at(3_304), 17), Ok(Action::Wait(3_616 * SECOND)));
}

#[test]
fn events_that_answer_nothing_are_refused_and_change_nothing() {
    let record = State { last_post: None, id: 1, phase: Phase::Awaiting };
    let mut poster = forever(record);
    assert_eq!(poster.step(Event::Saved, at(0), 0), Err(refusal()));
    assert_eq!(poster.step(Event::Published, at(0), 0), Err(refusal()));
    assert_eq!(poster.step(Event::Produced(vec![1u8]), at(0), 0), Err(refusal()));
    assert_eq!(poster.step(Event::Loaded(vec![1u8]), at(0), 0), Err(refusal()));
    assert_eq!(poster.step(failure(), at(0), 0), Err(refusal()));
    assert_eq!(poster.state(), record);
    assert_eq!(poster.pending(), Pending::Tick);
    assert!(!poster.has_image());

    assert_eq!(poster.step(Event::Tick, at(0), 0), Ok(Action::Produce("1.png".to_string())));
    assert_eq!(poster.step(Event::Tick, at(0), 0), Err(refusal()));
    assert_eq!(poster.step(Event::Published, at(0), 0), Err(refusal()));
    assert_eq!(poster.step(Event::LoadFailed, at(0), 0), Err(refusal()));
    assert_eq!(poster.state(), record);
    assert_eq!(poster.pending(), Pending::Production);

    assert!(matches!(poster.step(Event::Produced(vec![1u8]), at(0), 0), Ok(Action::Save(_))));
    assert_eq!(poster.step(Event::Tick, at(0), 0), Err(refusal()));
    assert_eq!(poster.step(Event::Published, at(0), 0), Err(refusal()));
    assert_eq!(poster.pending(), Pending::Save);

    assert!(matches!(poster.step(Event::Saved, at(0), 0), Ok(Action::Publish(_))));
    // A second post is never asked for while one is under way.
    assert_eq!(poster.step(Event::Tick, at(0), 0), Err(refusal()));
    assert_eq!(poster.step(Event::Saved, at(0), 0), Err(refusal()));
    assert_eq!(poster.step(Event::ProduceFailed, at(0), 0), Err(refusal()));
    assert_eq!(poster.pending(), Pending::Publish);
    assert_eq!(poster.state(), State { last_post: None, id: 1, phase: Phase::Generated });
}

#[test]
fn room_for_events() {
    let record = State { last_post: None, id: u32::MAX, phase: Phase::Generated };
    let mut last = forever(record);
    // Nothing is under way yet, so no event would move a number.
    assert!(last.has_room_for(&Event::Published));
    assert!(matches!(last.step(Event::Tick, at(0), 0), Ok(Action::Load(_))));
    assert!(matches!(last.step(Event::Loaded(vec![1u8]), at(0), 0), Ok(Action::Publish(_))));
    // The post of the last id is under way: there is no id to move on to.
    assert!(!last.has_room_for(&Event::Published));
    assert!(last.has_room_for(&failure()));
    assert!(last.has_room_for(&Event::Tick));
    assert_eq!(last.step(failure(), at(0), 0), Ok(Action::Wait(30 * SECOND)));
    assert_eq!(last.state(), record);

    let mut poster = forever(State { last_post: None, id: u32::MAX - 1, phase: Phase::Generated });
    assert!(matches!(poster.step(Event::Tick, at(0), 0), Ok(Action::Load(_))));
    assert!(matches!(poster.step(Event::Loaded(vec![1u8]), at(0), 0), Ok(Action::Publish(_))));
    assert!(poster.has_room_for(&Event::Published));
    assert!(matches!(poster.step(Event::Published, at(0), 0), Ok(Action::Save(_))));
    assert_eq!(poster.state().id, u32::MAX);
}

#[test]
fn offset_is_used_only_to_schedule_a_production() {
    let scheduled = forever(State { last_post: Some(at(0)), id: 2, phase: Phase::Awaiting });
    assert!(scheduled.draws(&Event::Tick));
    assert!(!scheduled.draws(&Event::Saved));
    assert!(!scheduled.draws(&Event::Published));
    let first = forever(State::default());
    assert!(!first.draws(&Event::Tick));
    let generated = forever(State { last_post: Some(at(0)), id: 2, phase: Phase::Generated });
    assert!(!generated.draws(&Event::Tick));
    let single = once(State { last_post: Some(at(0)), id: 2, phase: Phase::Awaiting });
    assert!(!single.draws(&Event::Tick));

    let mut waiting = forever(State { last_post: Some(at(0)), id: 2, phase: Phase::Awaiting });
    assert_eq!(waiting.step(Event::Tick, at(0), 5), Ok(Action::Wait(3_605 * SECOND)));
    assert!(!waiting.draws(&Event::Tick));
}

#[test]
fn accessors_show_a_fresh_controller() {
    let record = State { last_post: Some(at(3)), id: 8, phase: Phase::Generated };
    let poster = once(record);
    assert_eq!(poster.state(), record);
    assert_eq!(poster.attempt(), 0);
    assert_eq!(poster.pending(), Pending::Tick);
    assert_eq!(poster.mode(), Mode::Once);
    assert!(!poster.has_image());
    assert_eq!(forever(record).mode(), Mode::Forever);
}

#[test]
fn custom_backoff_table_sets_the_waits() {
    let policy = BackoffPolicy::new(vec![1, 5]).unwrap();
    let record = State { last_post: None, id: 1, phase: Phase::Generated };
    let mut poster = Poster::new(record, Schedule::default(), policy, Mode::Forever);
    assert!(matches!(poster.step(Event::Tick, at(0), 0), Ok(Action::Load(_))));
    assert!(matches!(poster.step(Event::Loaded(vec![0u8]), at(0), 0), Ok(Action::Publish(_))));
    assert_eq!(poster.step(failure(), at(0), 0), Ok(Action::Wait(SECOND)));
    assert!(matches!(poster.step(Event::Tick, at(0), 0), Ok(Action::Publish(_))));
    assert_eq!(poster.step(failure(), at(0), 0), Ok(Action::Wait(5 * SECOND)));
    assert!(matches!(poster.step(Event::Tick, at(0), 0), Ok(Action::Publish(_))));
    assert_eq!(poster.step(failure(), at(0), 0), Ok(Action::Wait(5 * SECOND)));
}

#[test]
fn advance_on_the_wall_clock_starts_an_overdue_production() {
    // Last posted in the year 2001: long overdue on any clock that is set.
    let record = State { last_post: Some(at(1_000_000_000)), id: 6, phase: Phase::Awaiting };
    let mut poster = forever(record);
    assert_eq!(poster.advance(Event::Tick), Ok(Action::Produce("6.png".to_string())));
    assert_eq!(poster.advance(Event::Tick), Err(refusal()));
}

#[test]
fn advance_on_the_wall_clock_waits_for_a_production_far_off() {
    // Last "posted" in the year 2286: not due on any clock set before then.
    let record = State { last_post: Some(at(10_000_000_000)), id: 6, phase: Phase::Awaiting };
    let mut poster = forever(record);
    match poster.advance(Event::Tick) {
        Ok(Action::Wait(nanos)) => {
            // The clock shows a time after 2020 and before 2286.
            assert!(nanos > 0);
            assert!(nanos <= (10_000_000_000 + 3_600 + 300 - 1_577_836_800) * SECOND);
        },
        other => panic!("unexpected answer: {:?}", other),
    }
    // The offset drawn for this production stands: the wait only shrinks.
    let first = match poster.advance(Event::Tick) {
        Ok(Action::Wait(nanos)) => nanos,
        other => panic!("unexpected answer: {:?}", other),
    };
    let second = match poster.advance(Event::Tick) {
        Ok(Action::Wait(nanos)) => nanos,
        other => panic!("unexpected answer: {:?}", other),
    };
    assert!(second <= first);
}

#[test]
fn advance_times_the_post_by_the_wall_clock() {
    let record = State { last_post: None, id: 6, phase: Phase::Generated };
    let mut poster = once(record);
    assert!(matches!(poster.advance(Event::Tick), Ok(Action::Load(_))));
    assert!(matches!(poster.advance(Event::Loaded(vec![1u8])), Ok(Action::Publish(_))));
    match poster.advance(Event::Published) {
        Ok(Action::Save(state)) => {
            assert_eq!(state.id, 7);
            assert_eq!(state.phase, Phase::Awaiting);
            assert!(state.last_post.unwrap().secs > 1_577_836_800);
        },
        other => panic!("unexpected answer: {:?}", other),
    }
    assert_eq!(poster.advance(Event::Saved), Ok(Action::Done));
}

#[test]
fn fatal_reasons_read_as_the_complaints_of_the_bot() {
    assert_eq!(Fatal::Production.message(), "Problem generating image");
    assert_eq!(Fatal::Persist.message(), "Unable to persist state");
    assert_eq!(
        Fatal::Reload.message(),
        "Wanted to retry uploading image but was unable to open its file"
    );
    assert_eq!(Fatal::Publish.message(), "Failed to post status");
}
