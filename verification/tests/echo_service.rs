use echo_server::admission::{AdmissionCounter, DEFAULT_CEILING};
use echo_server::handler::{ConnectionHandler, HandlerAction, HandlerState, ReadOutcome};

#[test]
fn echo_hello_round_trip() {
    let mut h = ConnectionHandler::new();
    assert_eq!(h.phase(), HandlerState::Reading);
    assert_eq!(h.next_action(), HandlerAction::Read);

    h.on_read(ReadOutcome::Bytes(b"hello".to_vec()));
    assert_eq!(h.phase(), HandlerState::Writing);
    assert_eq!(h.next_action(), HandlerAction::Write);
    assert_eq!(h.pending_bytes().as_slice(), b"hello");

    h.on_write(true);
    assert_eq!(h.phase(), HandlerState::Reading);

    h.on_read(ReadOutcome::Bytes(Vec::new()));
    assert_eq!(h.phase(), HandlerState::Closing);
    assert_eq!(h.next_action(), HandlerAction::Shutdown);

    h.on_shutdown(true);
    assert_eq!(h.phase(), HandlerState::Terminated);
    assert_eq!(h.next_action(), HandlerAction::Stop);
}

#[test]
fn multiple_chunks_echoed_in_order() {
    let mut h = ConnectionHandler::new();
    for chunk in [b"ab".to_vec(), b"cd".to_vec(), b"e".to_vec()] {
        h.on_read(ReadOutcome::Bytes(chunk.clone()));
        assert_eq!(h.phase(), HandlerState::Writing);
        assert_eq!(h.pending_bytes(), &chunk);
        h.on_write(true);
        assert_eq!(h.phase(), HandlerState::Reading);
    }
    h.on_read(ReadOutcome::Bytes(Vec::new()));
    h.on_shutdown(true);
    assert_eq!(h.phase(), HandlerState::Terminated);
}

#[test]
fn eof_before_any_data_goes_straight_to_closing() {
    let mut h = ConnectionHandler::new();
    h.on_read(ReadOutcome::Bytes(Vec::new()));
    assert_eq!(h.phase(), HandlerState::Closing);
    assert!(h.pending_bytes().is_empty());
    h.on_shutdown(true);
    assert_eq!(h.phase(), HandlerState::Terminated);
}

#[test]
fn transient_read_retries_in_place() {
    let mut h = ConnectionHandler::new();
    h.on_read(ReadOutcome::Transient);
    assert_eq!(h.phase(), HandlerState::Reading);
    assert_eq!(h.next_action(), HandlerAction::Read);
    h.on_read(ReadOutcome::Bytes(b"x".to_vec()));
    assert_eq!(h.phase(), HandlerState::Writing);
}

#[test]
fn fatal_read_fails_handler() {
    let mut h = ConnectionHandler::new();
    h.on_read(ReadOutcome::Fatal);
    assert_eq!(h.phase(), HandlerState::Failed);
    assert_eq!(h.next_action(), HandlerAction::Stop);
}

#[test]
fn write_failure_fails_handler() {
    let mut h = ConnectionHandler::new();
    h.on_read(ReadOutcome::Bytes(b"data".to_vec()));
    h.on_write(false);
    assert_eq!(h.phase(), HandlerState::Failed);
    assert_eq!(h.next_action(), HandlerAction::Stop);
}

#[test]
fn shutdown_failure_fails_handler() {
    let mut h = ConnectionHandler::new();
    h.on_read(ReadOutcome::Bytes(Vec::new()));
    h.on_shutdown(false);
    assert_eq!(h.phase(), HandlerState::Failed);
}

#[test]
fn ceiling_two_admits_exactly_two() {
    let mut c = AdmissionCounter::new(2);

    let (admitted_first, slot_first) = c.reserve();
    let (admitted_second, slot_second) = c.reserve();
    let (admitted_third, slot_third) = c.reserve();

    assert!(admitted_first);
    assert_eq!(slot_first, 0);
    assert!(admitted_second);
    assert_eq!(slot_second, 1);
    assert!(!admitted_third);
    assert_eq!(slot_third, 2);

    // The denied reservation is released at once; the two admitted ones
    // when their handlers finish.
    c.release();
    assert_eq!(c.value(), 2);
    c.release();
    c.release();
    assert_eq!(c.value(), 0);
}

#[test]
fn reserve_always_increments_even_when_denied() {
    let mut c = AdmissionCounter::new(0);
    let (admitted, slot) = c.reserve();
    assert!(!admitted);
    assert_eq!(slot, 0);
    assert_eq!(c.value(), 1);
    c.release();
    assert_eq!(c.value(), 0);
}

#[test]
fn counter_starts_at_zero_with_default_ceiling() {
    let c = AdmissionCounter::new(DEFAULT_CEILING);
    assert_eq!(c.value(), 0);
    assert_eq!(c.ceiling(), 8);
}

#[test]
fn slot_is_pre_increment_value() {
    let mut c = AdmissionCounter::new(DEFAULT_CEILING);
    for expected in 0..5u8 {
        let (admitted, slot) = c.reserve();
        assert!(admitted);
        assert_eq!(slot, expected);
        assert_eq!(c.value(), expected + 1);
    }
}
