use woodpecker::bridge::{Bridge, ReadyGate};
use woodpecker::json::decimal;
use woodpecker::pointer::{parse_button, Button, Buttons};
use woodpecker::protocol::{Capabilities, Diagnostic, Message};
use woodpecker::text::append_bounded;
use woodpecker::text_input::{State, MAX_BYTES};
use woodpecker::window::{primary, WindowEntity};

#[test]
fn rejects_oversized_utf8_and_unavailable_windows_before_focus() {
    let mut state = State::new();
    let oversized = "é".repeat(MAX_BYTES / 2 + 1);
    let error = state.input(oversized, true, Some(1)).unwrap_err();
    assert_eq!((error.code.as_str(), error.message.as_str()), ("text_too_large", "text exceeds 16384 UTF-8 bytes"));
    let error = state.input("a".into(), false, None).unwrap_err();
    assert_eq!(error.code, "text_window_unavailable");
    let error = state.input("a".into(), true, None).unwrap_err();
    assert_eq!(error.code, "text_focus_unavailable");
    assert!(state.flush().is_empty());
}

#[test]
fn validates_focus_and_queues_exact_utf8_limit_without_application_mutation() {
    let mut state = State::new();
    let exact = "é".repeat(MAX_BYTES / 2);
    state.input(exact.clone(), true, Some(4)).unwrap();
    state.input("b".into(), true, Some(5)).unwrap();
    let queued = state.flush();
    assert_eq!(queued, vec![(4, exact), (5, "b".to_string())]);
    assert!(state.flush().is_empty());
}

#[test]
fn pointer_buttons_need_a_location_and_alternate() {
    assert_eq!(parse_button("left"), Some(Button::Left));
    assert_eq!(parse_button("Left"), None);
    let mut buttons = Buttons::new();
    assert_eq!(buttons.button("side", true, true).unwrap_err().code, "invalid_pointer_button");
    assert_eq!(buttons.button("left", false, true).unwrap_err().code, "pointer_location_unavailable");
    assert_eq!(buttons.button("left", true, false).unwrap_err().code, "pointer_button_not_pressed");
    assert_eq!(buttons.button("left", true, true).unwrap(), Button::Left);
    assert!(buttons.is_held(Button::Left));
    assert_eq!(buttons.button("left", true, true).unwrap_err().code, "pointer_button_already_pressed");
    assert_eq!(buttons.button("left", true, false).unwrap(), Button::Left);
    assert!(!buttons.is_held(Button::Left));
}

#[test]
fn exactly_one_primary_window_is_required() {
    let window = |id, primary| WindowEntity { id, primary, window: true };
    assert_eq!(primary(&[window(1, false), window(2, true)]), Some(2));
    assert_eq!(primary(&[window(1, true), window(2, true)]), None);
    assert_eq!(primary(&[]), None);
    assert_eq!(primary(&[WindowEntity { id: 3, primary: true, window: false }]), None);
}

#[test]
fn ready_waits_for_positive_layer_confirmation_in_either_pipe_order() {
    let capabilities = Capabilities { screenshot: false };
    let mut gate = ReadyGate::new(true);
    assert_eq!(gate.ready(capabilities).unwrap(), None);
    assert!(!gate.initialized());
    assert_eq!(gate.layer_status(true).unwrap(), Some(capabilities));
    assert!(gate.initialized());

    let mut gate = ReadyGate::new(true);
    assert_eq!(gate.layer_status(true).unwrap(), None);
    assert_eq!(gate.ready(capabilities).unwrap(), Some(capabilities));

    let mut gate = ReadyGate::new(true);
    let error = gate.layer_status(false).unwrap_err();
    assert_eq!((error.code(), error.message()), ("launch", "tracing error layer was not installed"));

    let mut untraced = ReadyGate::new(false);
    assert_eq!(untraced.ready(capabilities).unwrap(), Some(capabilities));
    assert_eq!(untraced.ready(capabilities).unwrap_err().code(), "invalid_ready");
}

#[test]
fn warps_are_refused_in_order_and_stop_reports_progress() {
    let mut bridge = Bridge::new();
    assert_eq!(bridge.start(1, 0, false).unwrap_err().code, "invalid_tick_count");
    assert_eq!(bridge.start(1, 5, false).unwrap_err().code, "invalid_pace");
    bridge.start(2, 5, true).unwrap();
    assert_eq!(bridge.start(3, 5, true).unwrap_err().code, "warp_already_running");
    assert_eq!(bridge.set_pace(true).unwrap(), true);
    assert_eq!(bridge.set_pace(false).unwrap_err().code, "invalid_pace");
    assert!(bridge.tick().is_none());
    let (was_running, finished) = bridge.stop();
    assert!(was_running);
    let finished = finished.unwrap();
    assert_eq!((finished.id, finished.completion.requested_ticks, finished.completion.executed_ticks), (2, 5, 1));
    assert_eq!(bridge.stop().0, false);
    assert_eq!(bridge.set_pace(true).unwrap(), false);
}

#[test]
fn messages_name_their_requests() {
    let completed = Message::Completed { request_id: 4, command: "x".into(), output: "null".into() };
    assert_eq!(completed.id(), Some(4));
    let ready = Message::Ready { version: 3, capabilities: Capabilities::none() };
    assert_eq!(ready.id(), None);
    let protocol = Message::ProtocolError { request_id: None, error: Diagnostic::new("bad", "m".into()) };
    assert_eq!(protocol.id(), None);
}

#[test]
fn decimals_and_bounded_diagnostics() {
    assert_eq!(decimal(0), "0");
    assert_eq!(decimal(1207), "1207");
    assert_eq!(decimal(u64::MAX), "18446744073709551615");
    assert_eq!(append_bounded("abc".into(), "def", 8, 2), "abcdef");
    assert_eq!(append_bounded("abc".into(), "defghi", 8, 2), "hi");
    assert_eq!(append_bounded("ü".into(), "ü", 3, 1), "ü");
}
