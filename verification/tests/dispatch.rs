//! Response-envelope handling and typed result decoding.

use tg_flows::{
    chat_member_from_response, decode_message, decode_update_bytes, file_from_response,
    i32_from_response, invite_link_from_response, me_from_response, message_from_response,
    photos_total_from_response, response_result, string_from_response, true_from_response,
    ChatId, InputFile, Telegram, TgError, UpdateKind,
};

#[test]
fn successful_envelope_returns_decoded_result() {
    let body =
        b"{\"ok\":true,\"result\":{\"message_id\":1,\"chat\":{\"id\":123456},\"text\":\"bonjour!\"}}";
    let msg = message_from_response(body).unwrap();
    assert_eq!(msg.id.0, 1);
    assert_eq!(msg.chat.id, ChatId(123456));
    assert_eq!(msg.text(), Some("bonjour!"));
}

#[test]
fn dispatch_result_equals_direct_decoding() {
    let raw = "{\"message_id\":9,\"chat\":{\"id\":-4},\"text\":\"x\"}";
    let direct_value: serde_json::Value = serde_json::from_str(raw).unwrap();
    let direct = decode_message(&direct_value).unwrap();
    let envelope = format!("{{\"ok\":true,\"result\":{}}}", raw);
    let via_dispatch = message_from_response(envelope.as_bytes()).unwrap();
    assert_eq!(direct, via_dispatch);
}

#[test]
fn failing_envelope_is_a_protocol_error_with_the_description() {
    let body = b"{\"ok\":false,\"description\":\"Bad Request\"}";
    match message_from_response(body) {
        Err(TgError::Protocol(d)) => assert_eq!(d, "Bad Request"),
        _ => panic!("expected a protocol error"),
    }
    match true_from_response(body) {
        Err(TgError::Protocol(d)) => assert_eq!(d, "Bad Request"),
        _ => panic!("expected a protocol error"),
    }
    match me_from_response(body) {
        Err(TgError::Protocol(d)) => assert!(d.contains("Bad Request")),
        _ => panic!("expected a protocol error"),
    }
}

#[test]
fn get_chat_member_failure_never_yields_a_default_member() {
    let body = b"{\"ok\":false,\"description\":\"chat not found\"}";
    match chat_member_from_response(body) {
        Err(TgError::Protocol(d)) => assert_eq!(d, "chat not found"),
        Ok(_) => panic!("a failing envelope must not yield a member value"),
        Err(_) => panic!("expected a protocol error"),
    }
}

#[test]
fn ok_true_without_result_is_a_protocol_error() {
    let body = b"{\"ok\":true,\"description\":\"odd\"}";
    assert!(matches!(message_from_response(body), Err(TgError::Protocol(_))));
}

#[test]
fn ok_false_without_description_gives_empty_message() {
    let body = b"{\"ok\":false}";
    match message_from_response(body) {
        Err(TgError::Protocol(d)) => assert_eq!(d, ""),
        _ => panic!("expected a protocol error"),
    }
}

#[test]
fn unparseable_body_is_a_protocol_error() {
    let body = b"this is not json";
    assert!(matches!(response_result(body), Err(TgError::Protocol(_))));
}

#[test]
fn wrong_result_shape_is_a_schema_error() {
    let body = b"{\"ok\":true,\"result\":{\"message_id\":\"one\"}}";
    assert!(matches!(message_from_response(body), Err(TgError::Schema(_))));
    let body2 = b"{\"ok\":true,\"result\":42}";
    assert!(matches!(true_from_response(body2), Err(TgError::Schema(_))));
}

#[test]
fn true_result_decodes() {
    let body = b"{\"ok\":true,\"result\":true}";
    assert!(true_from_response(body).is_ok());
    let body_false = b"{\"ok\":true,\"result\":false}";
    assert!(matches!(true_from_response(body_false), Err(TgError::Schema(_))));
}

#[test]
fn me_result_decodes() {
    let body = b"{\"ok\":true,\"result\":{\"id\":42,\"is_bot\":true,\
        \"first_name\":\"bot\",\"username\":\"my_bot\"}}";
    let me = me_from_response(body).unwrap();
    assert_eq!(me.id.0, 42);
    assert!(me.is_bot);
    assert_eq!(me.first_name, "bot");
    assert_eq!(me.username, Some(String::from("my_bot")));
}

#[test]
fn chat_member_result_decodes() {
    let body = b"{\"ok\":true,\"result\":{\"status\":\"member\",\"user\":{\"id\":7}}}";
    let m = chat_member_from_response(body).unwrap();
    assert_eq!(m.status, "member");
    assert_eq!(m.user_id.0, 7);
}

#[test]
fn scalar_results_decode() {
    assert_eq!(i32_from_response(b"{\"ok\":true,\"result\":200}").unwrap(), 200);
    assert_eq!(
        string_from_response(b"{\"ok\":true,\"result\":\"https://t.me/x\"}").unwrap(),
        "https://t.me/x"
    );
    assert_eq!(
        photos_total_from_response(b"{\"ok\":true,\"result\":{\"total_count\":3}}").unwrap(),
        3
    );
    let f = file_from_response(b"{\"ok\":true,\"result\":{\"file_id\":\"F\"}}").unwrap();
    assert_eq!(f.file_id, "F");
    let l = invite_link_from_response(
        b"{\"ok\":true,\"result\":{\"invite_link\":\"https://t.me/+x\"}}",
    )
    .unwrap();
    assert_eq!(l.invite_link, "https://t.me/+x");
}

#[test]
fn out_of_range_count_is_a_schema_error() {
    let body = b"{\"ok\":true,\"result\":4294967296}";
    assert!(matches!(i32_from_response(body), Err(TgError::Schema(_))));
}

#[test]
fn upload_on_the_plain_path_is_refused_before_anything_is_sent() {
    let tele = Telegram::new_with_base_url(String::from("T"), "https://example.invalid/bot");
    let r = tele.send_photo(ChatId(1), InputFile::Memory(vec![1u8, 2, 3]));
    assert!(matches!(r, Err(TgError::UnsupportedCapability)));
    let r2 = tele.set_chat_photo(ChatId(1), InputFile::Memory(Vec::new()));
    assert!(matches!(r2, Err(TgError::UnsupportedCapability)));
}

#[test]
fn update_payload_decodes_by_kind() {
    let msg =
        b"{\"update_id\":5,\"message\":{\"message_id\":1,\"chat\":{\"id\":2},\"text\":\"hey\"}}";
    let u = decode_update_bytes(msg).unwrap();
    assert_eq!(u.id, 5);
    match u.kind {
        UpdateKind::Message(m) => {
            assert_eq!(m.id.0, 1);
            assert_eq!(m.text(), Some("hey"));
        },
        _ => panic!("expected a plain message update"),
    }

    let edited =
        b"{\"update_id\":6,\"edited_message\":{\"message_id\":1,\"chat\":{\"id\":2}}}";
    let u2 = decode_update_bytes(edited).unwrap();
    assert!(matches!(u2.kind, UpdateKind::EditedMessage(_)));

    let cb = b"{\"update_id\":7,\"callback_query\":{\"id\":\"q1\",\"data\":\"go\"}}";
    let u3 = decode_update_bytes(cb).unwrap();
    match u3.kind {
        UpdateKind::CallbackQuery(q) => {
            assert_eq!(q.id, "q1");
            assert_eq!(q.data, Some(String::from("go")));
        },
        _ => panic!("expected a callback query update"),
    }
}

#[test]
fn update_payload_of_unknown_kind_is_refused() {
    assert!(decode_update_bytes(b"{\"update_id\":5,\"shipping_query\":{}}").is_none());
    assert!(decode_update_bytes(b"{\"message\":{}}").is_none());
    assert!(decode_update_bytes(b"not json").is_none());
}
