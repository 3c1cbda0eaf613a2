use wol_agent::agent::{
    after_join, after_notify, after_poll, after_probe, after_sleep, after_wake, Phase,
};
use wol_agent::body::{append_capped, parse_signal, wake_requested};

#[test]
fn body_true_sets_signal() {
    assert!(wake_requested(b"true"));
}

#[test]
fn body_other_does_not_set_signal() {
    assert!(!wake_requested(b"false"));
    assert!(!wake_requested(b"True"));
    assert!(!wake_requested(b"TRUE"));
    assert!(!wake_requested(b""));
    assert!(!wake_requested(b"truex"));
    assert!(!wake_requested(b"tru"));
    assert!(!wake_requested(b" true"));
    assert!(!wake_requested(&[0xFF, 0xFE, 0xFD, 0xFC]));
}

#[test]
fn body_reads_as_boolean_literal_or_not_at_all() {
    assert_eq!(parse_signal(b"true"), Some(true));
    assert_eq!(parse_signal(b"false"), Some(false));
    assert_eq!(parse_signal(b"True"), None);
    assert_eq!(parse_signal(b"False"), None);
    assert_eq!(parse_signal(b""), None);
    assert_eq!(parse_signal(b"truefalse"), None);
    assert_eq!(parse_signal(b"false "), None);
    assert_eq!(parse_signal(&[0xFF, 0xFE, 0xFD, 0xFC]), None);
}

#[test]
fn body_collection_respects_cap() {
    let mut body = Vec::new();
    append_capped(&mut body, b"tr", 4);
    assert_eq!(body, b"tr".to_vec());
    append_capped(&mut body, b"uefalse", 4);
    assert_eq!(body, b"true".to_vec());
    append_capped(&mut body, b"more", 4);
    assert_eq!(body, b"true".to_vec());

    let mut over = b"abcde".to_vec();
    append_capped(&mut over, b"xyz", 4);
    assert_eq!(over, b"abcde".to_vec());
}

#[test]
fn patrol_wakes_on_true() {
    // One full patrol turn on a set signal: poll, wake, notify, sleep,
    // and back to the poll.
    assert_eq!(after_poll(&Some(b"true".to_vec())), Phase::Wake);
    assert_eq!(after_wake(true), Phase::Notify);
    assert_eq!(after_notify(&Some(b"true".to_vec())), Phase::Sleep);
    assert_eq!(after_sleep(), Phase::Poll);
}

#[test]
fn patrol_sleeps_on_false() {
    assert_eq!(after_poll(&Some(b"false".to_vec())), Phase::Sleep);
}

#[test]
fn patrol_restarts_on_failures() {
    assert_eq!(after_poll(&None), Phase::Restart);
    assert_eq!(after_poll(&Some(b"".to_vec())), Phase::Restart);
    assert_eq!(after_poll(&Some(b"True".to_vec())), Phase::Restart);
    assert_eq!(after_poll(&Some(b"maybe".to_vec())), Phase::Restart);
    assert_eq!(after_wake(false), Phase::Restart);
    assert_eq!(after_notify(&None), Phase::Restart);
    assert_eq!(after_notify(&Some(b"".to_vec())), Phase::Restart);
    assert_eq!(after_notify(&Some(b"ok".to_vec())), Phase::Restart);
}

#[test]
fn report_value_is_of_no_consequence() {
    assert_eq!(after_notify(&Some(b"true".to_vec())), Phase::Sleep);
    assert_eq!(after_notify(&Some(b"false".to_vec())), Phase::Sleep);
}

#[test]
fn startup_phases() {
    assert_eq!(after_join(true), Phase::Probe);
    assert_eq!(after_join(false), Phase::Halt);
    assert_eq!(after_probe(&Some((4, 4))), Phase::Poll);
    assert_eq!(after_probe(&Some((4, 3))), Phase::Halt);
    assert_eq!(after_probe(&Some((0, 0))), Phase::Poll);
    assert_eq!(after_probe(&None), Phase::Halt);
}
