use noplacelike::codec::{
    bare_error_frame, binary_unsupported_frame, clipboard_frame, decode, encode, interpret,
    invalid_message_frame, DecodeError, Member, WsMessage,
};

#[test]
fn unit_messages_are_written_without_payload() {
    assert_eq!(encode(&WsMessage::Connect), Some(String::from("{\"type\":\"Connect\"}")));
    assert_eq!(encode(&WsMessage::Sync), Some(String::from("{\"type\":\"Sync\"}")));
    assert_eq!(encode(&WsMessage::Heartbeat), Some(String::from("{\"type\":\"Heartbeat\"}")));
}

#[test]
fn clipboard_message_is_written_with_its_text() {
    assert_eq!(
        encode(&WsMessage::Clipboard(String::from("hello"))),
        Some(String::from("{\"type\":\"Clipboard\",\"data\":\"hello\"}"))
    );
}

#[test]
fn clipboard_text_is_escaped_when_written() {
    assert_eq!(
        encode(&WsMessage::Clipboard(String::from("say \"hi\"\n\\ \u{1}"))),
        Some(String::from(
            "{\"type\":\"Clipboard\",\"data\":\"say \\\"hi\\\"\\n\\\\ \\u0001\"}"
        ))
    );
}

#[test]
fn empty_and_multibyte_clipboard_text_is_written() {
    assert_eq!(
        encode(&WsMessage::Clipboard(String::new())),
        Some(String::from("{\"type\":\"Clipboard\",\"data\":\"\"}"))
    );
    assert_eq!(
        encode(&WsMessage::Clipboard(String::from("grüße 日本語 🎉"))),
        Some(String::from("{\"type\":\"Clipboard\",\"data\":\"grüße 日本語 🎉\"}"))
    );
}

#[test]
fn clipboard_frame_wraps_the_literal() {
    assert_eq!(clipboard_frame("\"x\""), "{\"type\":\"Clipboard\",\"data\":\"x\"}");
    assert_eq!(clipboard_frame(""), "{\"type\":\"Clipboard\",\"data\":}");
}

#[test]
fn each_message_is_read_from_its_frame() {
    assert_eq!(decode("{\"type\":\"Connect\"}"), Ok(WsMessage::Connect));
    assert_eq!(decode("{\"type\":\"Sync\"}"), Ok(WsMessage::Sync));
    assert_eq!(decode("{\"type\":\"Heartbeat\"}"), Ok(WsMessage::Heartbeat));
    assert_eq!(
        decode("{\"type\":\"Clipboard\",\"data\":\"hello\"}"),
        Ok(WsMessage::Clipboard(String::from("hello")))
    );
}

#[test]
fn frame_is_read_whatever_its_layout() {
    assert_eq!(
        decode(" { \"data\" : \"a\\nb\" , \"type\" : \"Clipboard\" } "),
        Ok(WsMessage::Clipboard(String::from("a\nb")))
    );
    assert_eq!(
        decode("{\"type\":\"Clipboard\",\"data\":\"\\u00e9\\\"\"}"),
        Ok(WsMessage::Clipboard(String::from("é\"")))
    );
    assert_eq!(decode("{\"type\":\"Sync\",\"data\":null}"), Ok(WsMessage::Sync));
    assert_eq!(decode("{\"type\":\"Sync\",\"extra\":[1,2]}"), Ok(WsMessage::Sync));
}

#[test]
fn written_message_is_read_back() {
    let messages = vec![
        WsMessage::Connect,
        WsMessage::Sync,
        WsMessage::Heartbeat,
        WsMessage::Clipboard(String::new()),
        WsMessage::Clipboard(String::from("tab\there \"quoted\" \\ back \u{7f} 日本語")),
    ];
    for message in messages {
        let frame = encode(&message).unwrap();
        assert_eq!(decode(&frame), Ok(message));
    }
}

#[test]
fn text_that_is_not_json_is_refused() {
    assert_eq!(decode("hello"), Err(DecodeError::NotJson));
    assert_eq!(decode(""), Err(DecodeError::NotJson));
    assert_eq!(decode("{\"type\":\"Sync\""), Err(DecodeError::NotJson));
    assert_eq!(decode("{\"type\":\"Sync\"} trailing"), Err(DecodeError::NotJson));
}

#[test]
fn unknown_discriminator_is_refused() {
    assert_eq!(decode("{\"type\":\"Paste\"}"), Err(DecodeError::UnknownType));
    assert_eq!(decode("{\"type\":\"clipboard\",\"data\":\"x\"}"), Err(DecodeError::UnknownType));
    assert_eq!(decode("{\"type\":\"SYNC\"}"), Err(DecodeError::UnknownType));
    assert_eq!(decode("{\"type\":\"error\",\"data\":\"x\"}"), Err(DecodeError::UnknownType));
}

#[test]
fn missing_or_odd_discriminator_is_refused() {
    assert_eq!(decode("{}"), Err(DecodeError::UnknownType));
    assert_eq!(decode("{\"data\":\"x\"}"), Err(DecodeError::UnknownType));
    assert_eq!(decode("{\"type\":1}"), Err(DecodeError::UnknownType));
    assert_eq!(decode("{\"type\":null}"), Err(DecodeError::UnknownType));
    assert_eq!(decode("[\"Sync\",null]"), Err(DecodeError::UnknownType));
    assert_eq!(decode("\"Sync\""), Err(DecodeError::UnknownType));
    assert_eq!(decode("null"), Err(DecodeError::UnknownType));
}

#[test]
fn payload_that_does_not_fit_is_refused() {
    assert_eq!(decode("{\"type\":\"Clipboard\"}"), Err(DecodeError::BadPayload));
    assert_eq!(decode("{\"type\":\"Clipboard\",\"data\":null}"), Err(DecodeError::BadPayload));
    assert_eq!(decode("{\"type\":\"Clipboard\",\"data\":5}"), Err(DecodeError::BadPayload));
    assert_eq!(decode("{\"type\":\"Clipboard\",\"data\":{}}"), Err(DecodeError::BadPayload));
    assert_eq!(decode("{\"type\":\"Sync\",\"data\":\"x\"}"), Err(DecodeError::BadPayload));
    assert_eq!(decode("{\"type\":\"Heartbeat\",\"data\":true}"), Err(DecodeError::BadPayload));
    assert_eq!(decode("{\"type\":\"Connect\",\"data\":[]}"), Err(DecodeError::BadPayload));
}

#[test]
fn members_are_interpreted_case_by_case() {
    let tag = |name: &str| Member::Text(String::from(name));
    assert_eq!(interpret(tag("Sync"), Member::Absent), Ok(WsMessage::Sync));
    assert_eq!(interpret(tag("Sync"), Member::Null), Ok(WsMessage::Sync));
    assert_eq!(interpret(tag("Connect"), Member::Absent), Ok(WsMessage::Connect));
    assert_eq!(interpret(tag("Heartbeat"), Member::Null), Ok(WsMessage::Heartbeat));
    assert_eq!(
        interpret(tag("Clipboard"), Member::Text(String::from("x"))),
        Ok(WsMessage::Clipboard(String::from("x")))
    );
    assert_eq!(interpret(tag("Clipboard"), Member::Absent), Err(DecodeError::BadPayload));
    assert_eq!(interpret(tag("Clipboard"), Member::Other), Err(DecodeError::BadPayload));
    assert_eq!(interpret(tag("Sync"), Member::Other), Err(DecodeError::BadPayload));
    assert_eq!(
        interpret(tag("Sync"), Member::Text(String::new())),
        Err(DecodeError::BadPayload)
    );
    assert_eq!(interpret(tag(""), Member::Absent), Err(DecodeError::UnknownType));
    assert_eq!(interpret(Member::Absent, Member::Absent), Err(DecodeError::UnknownType));
    assert_eq!(interpret(Member::Null, Member::Null), Err(DecodeError::UnknownType));
    assert_eq!(
        interpret(Member::Other, Member::Text(String::from("x"))),
        Err(DecodeError::UnknownType)
    );
}

#[test]
fn error_frames_read_as_the_protocol_says() {
    assert_eq!(
        invalid_message_frame(),
        "{\"type\":\"error\",\"data\":\"Invalid message format\"}"
    );
    assert_eq!(
        binary_unsupported_frame(),
        "{\"type\":\"error\",\"data\":\"Binary messages not supported\"}"
    );
    assert_eq!(bare_error_frame(), "{\"type\":\"error\"}");
}
