use woodpecker::command::Command;
use woodpecker::protocol::{decode, invalid_arguments, malformed_request, Message};

#[test]
fn malformed_request_names_the_request_id_of_a_line_that_has_one() {
    let line = r#"{"request_id":7,"command":"tick.warp.stop","arguments":{},"extra":1}"#;
    match malformed_request(line, String::from("unknown field `extra`")) {
        Message::ProtocolError { request_id, error } => {
            assert_eq!(request_id, Some(7));
            assert_eq!(error.code, "malformed_request");
            assert_eq!(error.message, "unknown field `extra`");
        }
        other => panic!("unexpected message {other:?}"),
    }
}

#[test]
fn malformed_request_without_a_numeric_request_id_names_none() {
    for line in ["not json", r#"{"request_id":"7"}"#, r#"{"request_id":-1}"#, "[1,2]"] {
        match malformed_request(line, String::from("bad")) {
            Message::ProtocolError { request_id, .. } => assert_eq!(request_id, None, "{line}"),
            other => panic!("unexpected message {other:?}"),
        }
    }
}

#[test]
fn invalid_arguments_rejects_the_named_command() {
    match invalid_arguments(9, String::from("input.text.input"), String::from("missing text")) {
        Message::Rejected { request_id, command, error } => {
            assert_eq!(request_id, 9);
            assert_eq!(command, "input.text.input");
            assert_eq!(error.code, "invalid_arguments");
            assert_eq!(error.message, "missing text");
        }
        other => panic!("unexpected message {other:?}"),
    }
}

#[test]
fn decode_follows_the_envelope_then_the_arguments() {
    let line = r#"{"request_id":3,"command":"tick.warp.stop","arguments":{}}"#;
    match decode(line, Ok((3, String::from("tick.warp.stop"))), Ok(Command::WarpStop)) {
        Ok((3, Command::WarpStop)) => {}
        other => panic!("unexpected decode {other:?}"),
    }

    let broken = r#"{"request_id":4,"command":1}"#;
    match decode(broken, Err(String::from("invalid type")), Ok(Command::WarpStop)) {
        Err(Message::ProtocolError { request_id, error }) => {
            assert_eq!(request_id, Some(4));
            assert_eq!(error.code, "malformed_request");
            assert_eq!(error.message, "invalid type");
        }
        other => panic!("unexpected decode {other:?}"),
    }

    let wrong = r#"{"request_id":5,"command":"input.text.input","arguments":{}}"#;
    match decode(
        wrong,
        Ok((5, String::from("input.text.input"))),
        Err(String::from("missing field `text`")),
    ) {
        Err(Message::Rejected { request_id, command, error }) => {
            assert_eq!(request_id, 5);
            assert_eq!(command, "input.text.input");
            assert_eq!(error.code, "invalid_arguments");
            assert_eq!(error.message, "missing field `text`");
        }
        other => panic!("unexpected decode {other:?}"),
    }
}
