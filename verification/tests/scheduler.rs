//! The epoch schedule and the steps of the scheduler.

use base64::prelude::{Engine as _, BASE64_STANDARD as BASE64};
use curve25519_dalek::ristretto::RistrettoPoint;
use rand::rngs::OsRng;
use star_randsrv::config::Config;
use star_randsrv::handler::{info, randomness, Error, RandomnessRequest};
use star_randsrv::schedule::{derive_schedule, Fatal};
use star_randsrv::state::{
    at_test_time, epoch_loop, epoch_tags, next_epoch, test_config, OPRFServer, Phase,
};
use star_randsrv::timestamp::{Timestamp, NANOS_PER_SECOND};

fn config(first: u8, last: u8, seconds: u32, base: Option<Timestamp>) -> Config {
    Config {
        listen: "127.0.0.1:8081".to_string(),
        epoch_seconds: seconds,
        first_epoch: first,
        last_epoch: last,
        epoch_base_time: base,
        increase_nofile_limit: false,
        prometheus_listen: None,
    }
}

fn at(seconds: i64, nanoseconds: u32) -> Timestamp {
    Timestamp::new(seconds, nanoseconds).unwrap()
}

fn parts(instant: Timestamp) -> (i64, u32) {
    (instant.seconds(), instant.nanoseconds())
}

fn one_point(epoch: Option<u8>) -> RandomnessRequest {
    let point = RistrettoPoint::random(&mut OsRng);
    RandomnessRequest { points: vec![BASE64.encode(point.compress().as_bytes())], epoch }
}

/// Whether the instance still evaluates under an epoch
fn serves(server: &OPRFServer, epoch: u8) -> bool {
    let point = RistrettoPoint::random(&mut OsRng);
    let input = ppoprf::ppoprf::Point::from(point.compress().as_bytes().as_slice());
    server.server.eval(&input, epoch, false).is_ok()
}

#[test]
fn timestamp_parts() {
    assert_eq!(NANOS_PER_SECOND, 1_000_000_000);
    assert_eq!(parts(at(5, 999_999_999)), (5, 999_999_999));
    assert_eq!(parts(at(-5, 0)), (-5, 0));
    assert!(Timestamp::new(0, 1_000_000_000).is_none());
    assert!(Timestamp::new(0, u32::MAX).is_none());
}

#[test]
fn timestamp_differences() {
    assert_eq!(at(10, 5).nanos_since(&at(7, 10)), 2_999_999_995);
    assert_eq!(at(7, 10).nanos_since(&at(10, 5)), -2_999_999_995);
    assert_eq!(at(-1, 999_999_999).nanos_since(&at(0, 0)), -1);
    assert_eq!(
        at(i64::MAX, 999_999_999).nanos_since(&at(i64::MIN, 0)),
        (i64::MAX as i128 - i64::MIN as i128) * 1_000_000_000 + 999_999_999
    );
}

#[test]
fn timestamp_additions() {
    assert_eq!(parts(at(10, 7).checked_add_seconds(5).unwrap()), (15, 7));
    assert_eq!(parts(at(-10, 7).checked_add_seconds(5).unwrap()), (-5, 7));
    assert_eq!(parts(at(i64::MAX - 1, 0).checked_add_seconds(1).unwrap()), (i64::MAX, 0));
    assert!(at(i64::MAX, 0).checked_add_seconds(1).is_none());
    assert!(at(0, 0).checked_add_seconds(u64::MAX).is_none());
    assert_eq!(
        parts(at(i64::MIN, 3).checked_add_seconds(u64::MAX).unwrap()),
        (i64::MAX, 3)
    );
}

#[test]
fn delays() {
    let wait = at(10, 100).delay_from(&at(8, 300)).unwrap();
    assert_eq!((wait.seconds, wait.nanoseconds), (1, 999_999_800));
    let wait = at(10, 300).delay_from(&at(8, 100)).unwrap();
    assert_eq!((wait.seconds, wait.nanoseconds), (2, 200));
    // Nothing to wait for an instant that is now or has passed.
    assert!(at(10, 100).delay_from(&at(10, 100)).is_none());
    assert!(at(10, 100).delay_from(&at(10, 101)).is_none());
    let wait = at(i64::MAX, 999_999_999).delay_from(&at(i64::MIN, 0)).unwrap();
    assert_eq!((wait.seconds, wait.nanoseconds), (u64::MAX, 999_999_999));
}

#[test]
fn schedule_without_base_time() {
    let start = at(1_679_521_595, 123_456_789);
    let schedule = derive_schedule(&config(12, 24, 1, None), start).unwrap();
    assert_eq!(schedule.epoch, 12);
    assert_eq!(parts(schedule.next_rotation), (1_679_521_596, 123_456_789));
    let schedule = derive_schedule(&config(12, 24, 60, None), start).unwrap();
    assert_eq!(schedule.epoch, 12);
    assert_eq!(parts(schedule.next_rotation), (1_679_521_655, 123_456_789));
}

#[test]
fn schedule_counts_whole_epochs() {
    // 6.9 seconds in epochs of 2 seconds: three are over.
    let base = at(1000, 500_000_000);
    let schedule = derive_schedule(&config(12, 24, 2, Some(base)), at(1007, 400_000_000)).unwrap();
    assert_eq!(schedule.epoch, 15);
    assert_eq!(parts(schedule.next_rotation), (1008, 500_000_000));
    // A nanosecond before the boundary, and on it.
    let schedule = derive_schedule(&config(12, 24, 2, Some(base)), at(1008, 499_999_999)).unwrap();
    assert_eq!(schedule.epoch, 15);
    assert_eq!(parts(schedule.next_rotation), (1008, 500_000_000));
    let schedule = derive_schedule(&config(12, 24, 2, Some(base)), at(1008, 500_000_000)).unwrap();
    assert_eq!(schedule.epoch, 16);
    assert_eq!(parts(schedule.next_rotation), (1010, 500_000_000));
    // Started at the base time itself.
    let schedule = derive_schedule(&config(12, 24, 2, Some(base)), base).unwrap();
    assert_eq!(schedule.epoch, 12);
    assert_eq!(parts(schedule.next_rotation), (1002, 500_000_000));
}

#[test]
fn schedule_begins_the_range_again() {
    let base = at(0, 0);
    let settings = config(12, 24, 1, Some(base));
    assert_eq!(derive_schedule(&settings, at(12, 0)).unwrap().epoch, 24);
    assert_eq!(derive_schedule(&settings, at(13, 0)).unwrap().epoch, 12);
    assert_eq!(derive_schedule(&settings, at(14, 999)).unwrap().epoch, 13);
    let late = derive_schedule(&settings, at(13 * 1000 + 5, 0)).unwrap();
    assert_eq!(late.epoch, 17);
    assert_eq!(parts(late.next_rotation), (13_006, 0));
    // A range of one epoch, and the widest one.
    assert_eq!(derive_schedule(&config(7, 7, 1, Some(base)), at(99, 0)).unwrap().epoch, 7);
    assert_eq!(derive_schedule(&config(0, 255, 1, Some(base)), at(255, 0)).unwrap().epoch, 255);
    assert_eq!(derive_schedule(&config(0, 255, 1, Some(base)), at(256, 0)).unwrap().epoch, 0);
}

#[test]
fn schedule_before_the_unix_epoch() {
    let base = at(-10, 250_000_000);
    let schedule = derive_schedule(&config(1, 5, 3, Some(base)), at(-2, 0)).unwrap();
    // 7.75 seconds: two epochs are over.
    assert_eq!(schedule.epoch, 3);
    assert_eq!(parts(schedule.next_rotation), (-1, 250_000_000));
}

#[test]
fn schedule_faults() {
    let base = at(1000, 1);
    let settings = config(12, 24, 1, Some(base));
    assert_eq!(derive_schedule(&settings, at(1000, 0)).unwrap_err(), Fatal::BaseTimeInFuture);
    assert_eq!(derive_schedule(&settings, at(-5, 0)).unwrap_err(), Fatal::BaseTimeInFuture);
    // The count of epochs has to fit in 32 bits.
    let most = 1000 + u32::MAX as i64;
    assert_eq!(derive_schedule(&settings, at(most + 1, 1)).unwrap_err(), Fatal::TooManyEpochs);
    assert_eq!(derive_schedule(&settings, at(i64::MAX, 0)).unwrap_err(), Fatal::TooManyEpochs);
    let largest = derive_schedule(&settings, at(most, 1)).unwrap();
    assert_eq!(parts(largest.next_rotation), (most + 1, 1));
    assert_eq!(largest.epoch, 12 + (u32::MAX as u64 % 13) as u8);
    let last_but_one = derive_schedule(&settings, at(most, 0)).unwrap();
    assert_eq!(parts(last_but_one.next_rotation), (most, 1));
    assert_eq!(last_but_one.epoch, 12 + ((u32::MAX as u64 - 1) % 13) as u8);
    // Epochs of the longest kind, counted to the largest number.
    let longest = config(12, 24, u32::MAX, Some(at(i64::MIN, 0)));
    let span = u32::MAX as i128 * u32::MAX as i128;
    let start = (i64::MIN as i128 + span) as i64;
    assert_eq!(start, 9_223_372_028_264_841_217);
    let largest = derive_schedule(&longest, at(start, 0)).unwrap();
    assert_eq!(parts(largest.next_rotation), (start + u32::MAX as i64, 0));
    assert_eq!(largest.epoch, 12 + (u32::MAX as u64 % 13) as u8);
    // The next rotation has to be an instant.
    let settings = config(12, 24, 10, None);
    assert_eq!(
        derive_schedule(&settings, at(i64::MAX - 9, 0)).unwrap_err(),
        Fatal::TimeOutOfRange
    );
    assert_eq!(
        parts(derive_schedule(&settings, at(i64::MAX - 10, 0)).unwrap().next_rotation),
        (i64::MAX, 0)
    );
}

#[test]
fn new_state_serves_the_whole_range() {
    let settings = config(3, 6, 1, None);
    let server = OPRFServer::new(&settings).unwrap();
    assert_eq!(server.epoch, 3);
    assert!(server.next_epoch_time.is_none());
    assert!(!serves(&server, 2));
    for epoch in 3..=6 {
        assert!(serves(&server, epoch));
    }
    assert!(!serves(&server, 7));
    // The ends of the tag space.
    let server = OPRFServer::new(&config(0, 255, 1, None)).unwrap();
    assert!(serves(&server, 0) && serves(&server, 255));
    let server = OPRFServer::new(&config(255, 255, 1, None)).unwrap();
    assert_eq!(server.epoch, 255);
    assert!(serves(&server, 255) && !serves(&server, 254));
}

#[test]
fn catch_up_punctures_what_is_over() {
    let settings = config(12, 24, 1, None);
    let mut server = OPRFServer::new(&settings).unwrap();
    let key = info(&server).unwrap().public_key;
    server.catch_up(&settings, 17).unwrap();
    assert_eq!(server.epoch, 17);
    for epoch in 12..17 {
        assert!(!serves(&server, epoch));
    }
    for epoch in 17..=24 {
        assert!(serves(&server, epoch));
    }
    assert_eq!(info(&server).unwrap().public_key, key);
    // Nothing to do at the first epoch.
    let mut server = OPRFServer::new(&settings).unwrap();
    server.catch_up(&settings, 12).unwrap();
    assert_eq!(server.epoch, 12);
    assert!(serves(&server, 12));
}

#[test]
fn catch_up_stops_at_a_failed_puncture() {
    let settings = config(12, 24, 1, None);
    let mut server = OPRFServer::new(&settings).unwrap();
    server.server.puncture(14).unwrap();
    assert_eq!(server.catch_up(&settings, 17).unwrap_err(), Fatal::Puncture);
    assert_eq!(server.epoch, 12);
    assert!(!serves(&server, 12) && !serves(&server, 13));
    assert!(serves(&server, 15) && serves(&server, 16));
}

#[test]
fn publish_writes_whole_seconds() {
    let settings = config(12, 24, 1, None);
    let mut server = OPRFServer::new(&settings).unwrap();
    server.publish(at(1_679_521_595, 999_999_999)).unwrap();
    assert_eq!(server.next_epoch_time.as_deref(), Some("2023-03-22T21:46:35Z"));
    server.publish(at(0, 1)).unwrap();
    assert_eq!(server.next_epoch_time.as_deref(), Some("1970-01-01T00:00:00Z"));
    server.publish(at(-2, 500_000_000)).unwrap();
    assert_eq!(server.next_epoch_time.as_deref(), Some("1969-12-31T23:59:58Z"));
    server.publish(at(253_402_300_799, 0)).unwrap();
    assert_eq!(server.next_epoch_time.as_deref(), Some("9999-12-31T23:59:59Z"));
    assert_eq!(server.epoch, 12);
}

#[test]
fn publish_fails_without_a_text() {
    let settings = config(12, 24, 1, None);
    let mut server = OPRFServer::new(&settings).unwrap();
    server.publish(at(1_679_521_595, 0)).unwrap();
    assert_eq!(server.publish(at(253_402_300_800, 0)).unwrap_err(), Fatal::TimestampFormat);
    assert_eq!(server.publish(at(i64::MAX, 0)).unwrap_err(), Fatal::TimestampFormat);
    assert_eq!(server.publish(at(i64::MIN, 0)).unwrap_err(), Fatal::TimestampFormat);
    // What was published stays.
    assert_eq!(server.next_epoch_time.as_deref(), Some("2023-03-22T21:46:35Z"));
}

#[test]
fn advance_walks_the_range_and_renews_the_key() {
    let settings = config(3, 5, 1, None);
    let mut server = OPRFServer::new(&settings).unwrap();
    server.publish(at(1_679_521_595, 0)).unwrap();
    let key = info(&server).unwrap().public_key;

    server.advance(&settings).unwrap();
    assert_eq!(server.epoch, 4);
    assert!(!serves(&server, 3) && serves(&server, 4) && serves(&server, 5));
    assert_eq!(info(&server).unwrap().public_key, key);
    assert!(server.next_epoch_time.is_some());

    server.advance(&settings).unwrap();
    assert_eq!(server.epoch, 5);
    assert!(!serves(&server, 3) && !serves(&server, 4) && serves(&server, 5));
    assert_eq!(info(&server).unwrap().public_key, key);

    // The range is used up: a new key for the whole range.
    server.advance(&settings).unwrap();
    assert_eq!(server.epoch, 3);
    assert!(serves(&server, 3) && serves(&server, 4) && serves(&server, 5));
    assert_ne!(info(&server).unwrap().public_key, key);
    assert!(server.next_epoch_time.is_none());
}

#[test]
fn advance_at_the_last_tag_renews_the_key() {
    let settings = config(254, 255, 1, None);
    let mut server = OPRFServer::new(&settings).unwrap();
    server.advance(&settings).unwrap();
    assert_eq!(server.epoch, 255);
    server.advance(&settings).unwrap();
    assert_eq!(server.epoch, 254);
    assert!(serves(&server, 254) && serves(&server, 255));
}

#[test]
fn advance_fails_on_a_punctured_epoch() {
    let settings = config(3, 5, 1, None);
    let mut server = OPRFServer::new(&settings).unwrap();
    server.server.puncture(3).unwrap();
    assert_eq!(server.advance(&settings).unwrap_err(), Fatal::Puncture);
    assert_eq!(server.epoch, 3);
    assert!(serves(&server, 4) && serves(&server, 5));
}

#[test]
fn old_epoch_is_refused_after_rotation() {
    let settings = config(12, 24, 1, None);
    let mut server = OPRFServer::new(&settings).unwrap();
    assert!(randomness(&server, &one_point(Some(12))).is_ok());
    server.advance(&settings).unwrap();
    assert_eq!(randomness(&server, &one_point(Some(12))).unwrap_err(), Error::BadEpoch(12));
    assert_eq!(randomness(&server, &one_point(Some(14))).unwrap_err(), Error::BadEpoch(14));
    let response = randomness(&server, &one_point(Some(13))).unwrap();
    assert_eq!(response.epoch, 13);
    assert_eq!(randomness(&server, &one_point(None)).unwrap().epoch, 13);
}

#[test]
fn scheduler_cycle() {
    let settings = config(12, 13, 10, None);
    let mut server = OPRFServer::new(&settings).unwrap();
    let key = info(&server).unwrap().public_key;

    let step = epoch_loop(&mut server, &settings, Phase::Start, at(1000, 500)).unwrap();
    assert!(step.sleep.is_none());
    assert!(matches!(step.phase, Phase::Publish { next_rotation } if parts(next_rotation) == (1010, 500)));
    assert_eq!(server.epoch, 12);
    assert!(server.next_epoch_time.is_none());

    // The wait is what is left of the epoch.
    let step = epoch_loop(&mut server, &settings, step.phase, at(1000, 700)).unwrap();
    let wait = step.sleep.unwrap();
    assert_eq!((wait.seconds, wait.nanoseconds), (9, 999_999_800));
    assert!(matches!(step.phase, Phase::Rotate { next_rotation } if parts(next_rotation) == (1010, 500)));
    assert_eq!(server.next_epoch_time.as_deref(), Some("1970-01-01T00:16:50Z"));
    assert_eq!(server.epoch, 12);

    let step = epoch_loop(&mut server, &settings, step.phase, at(1010, 600)).unwrap();
    assert!(step.sleep.is_none());
    assert!(matches!(step.phase, Phase::Publish { next_rotation } if parts(next_rotation) == (1020, 500)));
    assert_eq!(server.epoch, 13);
    assert_eq!(info(&server).unwrap().public_key, key);

    // Behind schedule: no wait.
    let step = epoch_loop(&mut server, &settings, step.phase, at(1020, 500)).unwrap();
    assert!(step.sleep.is_none());
    assert_eq!(server.next_epoch_time.as_deref(), Some("1970-01-01T00:17:00Z"));

    // The second rotation uses the range up.
    let step = epoch_loop(&mut server, &settings, step.phase, at(1020, 501)).unwrap();
    assert!(matches!(step.phase, Phase::Publish { next_rotation } if parts(next_rotation) == (1030, 500)));
    assert_eq!(server.epoch, 12);
    assert!(server.next_epoch_time.is_none());
    assert_ne!(info(&server).unwrap().public_key, key);
    assert!(serves(&server, 12) && serves(&server, 13));
}

#[test]
fn scheduler_start_catches_up() {
    let settings = config(12, 24, 1, Some(at(100, 900_000_000)));
    let mut server = OPRFServer::new(&settings).unwrap();
    let step = epoch_loop(&mut server, &settings, Phase::Start, at(106, 0)).unwrap();
    assert_eq!(server.epoch, 17);
    assert!(!serves(&server, 16) && serves(&server, 17));
    assert!(matches!(step.phase, Phase::Publish { next_rotation } if parts(next_rotation) == (106, 900_000_000)));
}

#[test]
fn scheduler_faults() {
    let settings = config(12, 24, 1, Some(at(100, 0)));
    let mut server = OPRFServer::new(&settings).unwrap();
    let fault = epoch_loop(&mut server, &settings, Phase::Start, at(99, 0)).unwrap_err();
    assert_eq!(fault, Fatal::BaseTimeInFuture);
    assert_eq!(server.epoch, 12);
    assert!(serves(&server, 12));

    let far = Phase::Publish { next_rotation: at(253_402_300_800, 0) };
    let fault = epoch_loop(&mut server, &settings, far, at(99, 0)).unwrap_err();
    assert_eq!(fault, Fatal::TimestampFormat);

    let last = Phase::Rotate { next_rotation: at(i64::MAX, 0) };
    let fault = epoch_loop(&mut server, &settings, last, at(99, 0)).unwrap_err();
    assert_eq!(fault, Fatal::TimeOutOfRange);
    assert_eq!(server.epoch, 12);
    assert!(serves(&server, 12));

    server.server.puncture(12).unwrap();
    let due = Phase::Rotate { next_rotation: at(101, 0) };
    let fault = epoch_loop(&mut server, &settings, due, at(101, 0)).unwrap_err();
    assert_eq!(fault, Fatal::Puncture);
}

#[test]
fn key_generation_lasts_one_round_of_the_range() {
    let settings = config(12, 24, 1, None);
    let mut server = OPRFServer::new(&settings).unwrap();
    let key = info(&server).unwrap().public_key;
    let start = at(5000, 250);
    let mut step = epoch_loop(&mut server, &settings, Phase::Start, start).unwrap();
    for round in 1..=13i64 {
        // announce
        step = epoch_loop(&mut server, &settings, step.phase, start).unwrap();
        assert!(
            matches!(step.phase, Phase::Rotate { next_rotation } if parts(next_rotation) == (5000 + round, 250))
        );
        assert_eq!(info(&server).unwrap().public_key, key);
        assert_eq!(server.epoch as i64, 12 + round - 1);
        // rotate
        step = epoch_loop(&mut server, &settings, step.phase, start).unwrap();
    }
    assert_eq!(server.epoch, 12);
    assert_ne!(info(&server).unwrap().public_key, key);
}

#[test]
fn settings_validity() {
    assert!(config(12, 24, 1, None).is_valid());
    assert!(config(7, 7, 1, None).is_valid());
    assert!(!config(24, 12, 1, None).is_valid());
    assert!(!config(12, 24, 0, None).is_valid());
}

#[test]
fn epoch_after_an_epoch() {
    let settings = config(12, 24, 1, None);
    assert_eq!(next_epoch(&settings, 12), Some(13));
    assert_eq!(next_epoch(&settings, 23), Some(24));
    assert_eq!(next_epoch(&settings, 24), None);
    assert_eq!(next_epoch(&settings, 11), Some(12));
    assert_eq!(next_epoch(&settings, 10), None);
    assert_eq!(next_epoch(&settings, 255), None);
    let settings = config(0, 255, 1, None);
    assert_eq!(next_epoch(&settings, 254), Some(255));
    assert_eq!(next_epoch(&settings, 255), None);
}

#[test]
fn announce_takes_a_text_or_fails() {
    let settings = config(12, 24, 1, None);
    let mut server = OPRFServer::new(&settings).unwrap();
    server.announce(Some("2023-03-22T21:46:35Z".to_string())).unwrap();
    assert_eq!(server.next_epoch_time.as_deref(), Some("2023-03-22T21:46:35Z"));
    assert_eq!(server.announce(None).unwrap_err(), Fatal::TimestampFormat);
    assert_eq!(server.next_epoch_time.as_deref(), Some("2023-03-22T21:46:35Z"));
    assert_eq!(server.epoch, 12);
}

#[test]
fn tags_of_a_range() {
    assert_eq!(epoch_tags(&config(3, 6, 1, None)), vec![3, 4, 5, 6]);
    assert_eq!(epoch_tags(&config(7, 7, 1, None)), vec![7]);
    assert_eq!(epoch_tags(&config(254, 255, 1, None)), vec![254, 255]);
    let all = epoch_tags(&config(0, 255, 1, None));
    assert_eq!(all.len(), 256);
    assert_eq!((all[0], all[100], all[255]), (0, 100, 255));
    assert_eq!(epoch_tags(&test_config()).len(), 13);
}

#[test]
fn state_around_an_instance() {
    let settings = config(3, 6, 1, None);
    let instance = ppoprf::ppoprf::Server::new(vec![3, 4, 5, 6]);
    let key = instance.as_ref().unwrap().get_public_key();
    let state = OPRFServer::with_instance(&settings, instance).unwrap();
    assert_eq!(state.epoch, 3);
    assert!(state.next_epoch_time.is_none());
    assert_eq!(state.server.get_public_key(), key);
    // A failure to make the instance is handed on as it is.
    let failed = OPRFServer::with_instance(&settings, Err(ppoprf::PPRFError::NoPrefixFound));
    assert!(matches!(failed, Err(ppoprf::PPRFError::NoPrefixFound)));
    let failed = OPRFServer::with_instance(&settings, Err(ppoprf::PPRFError::BadTag { md: 9 }));
    assert!(matches!(failed, Err(ppoprf::PPRFError::BadTag { md: 9 })));
}

#[test]
fn trial_time_of_a_state() {
    let settings = config(3, 6, 1, None);
    let mut made = OPRFServer::new(&settings).unwrap();
    made.epoch = 5;
    let key = made.server.get_public_key();
    let shown = at_test_time(Ok(made)).unwrap();
    assert_eq!(shown.next_epoch_time.as_deref(), Some("2023-03-22T21:46:35Z"));
    assert_eq!(shown.epoch, 5);
    assert_eq!(shown.server.get_public_key(), key);
    let failed = at_test_time(Err(ppoprf::PPRFError::AlreadyPunctured));
    assert!(matches!(failed, Err(ppoprf::PPRFError::AlreadyPunctured)));
}
