//! The subscription state machine and the host-bridge helpers.

use tg_flows::{
    bot_id_from_headers, decode_headers_bytes, error_code_of, event_url, is_success, listen_url,
    revoke_url, success_message, validate_event_buffer, SubscriptionController,
    SubscriptionState, TgError, UpdateKind,
};

#[test]
fn fresh_controller_is_idle_and_commits_to_a_branch() {
    let mut c = SubscriptionController::new();
    assert_eq!(c.state, SubscriptionState::Idle);
    assert!(c.begin(1));
    assert_eq!(c.state, SubscriptionState::Listening);

    let mut d = SubscriptionController::new();
    assert!(!d.begin(0));
    assert_eq!(d.state, SubscriptionState::Delivering);
}

#[test]
fn successful_handshake_terminates_in_success_and_reports_status_once() {
    let mut c = SubscriptionController::new();
    c.begin(1);
    let o = c.on_listen_response("my_bot", 200, Vec::from(&b"{}"[..]));
    assert_eq!(c.state, SubscriptionState::TerminatedSuccess);
    assert_eq!(
        o.status_message,
        Some(String::from("[my_bot] Listening for all messages to your bot."))
    );
    assert_eq!(o.error_code, None);
    assert!(o.error_log.is_none());
    assert!(o.first_update.is_none());
}

#[test]
fn successful_handshake_delivers_a_synchronous_first_update() {
    let mut c = SubscriptionController::new();
    c.begin(1);
    let body =
        b"{\"update_id\":3,\"message\":{\"message_id\":1,\"chat\":{\"id\":2},\"text\":\"hi\"}}";
    let o = c.on_listen_response("bot", 204, Vec::from(&body[..]));
    assert_eq!(c.state, SubscriptionState::TerminatedSuccess);
    let u = o.first_update.unwrap();
    assert!(matches!(u.kind, UpdateKind::Message(_)));
}

#[test]
fn failing_handshake_terminates_in_failure_and_reports_the_code_once() {
    let mut c = SubscriptionController::new();
    c.begin(1);
    let o = c.on_listen_response("bot", 404, Vec::from(&b"no such flow"[..]));
    assert_eq!(c.state, SubscriptionState::TerminatedFailure);
    assert_eq!(o.status_message, None);
    assert_eq!(o.error_code, Some(404));
    assert_eq!(o.error_log, Some(Vec::from(&b"no such flow"[..])));
    assert!(o.first_update.is_none());
}

#[test]
fn delivery_of_a_decodable_event_succeeds() {
    let mut c = SubscriptionController::new();
    c.begin(0);
    let body =
        b"{\"update_id\":9,\"message\":{\"message_id\":4,\"chat\":{\"id\":5},\"text\":\"yo\"}}";
    let o = c.on_event_payload(body);
    assert_eq!(c.state, SubscriptionState::TerminatedSuccess);
    assert_eq!(o.update.unwrap().id, 9);
    assert_eq!(o.error_code, None);
    assert!(o.error_log.is_none());
}

#[test]
fn delivery_of_a_malformed_event_reports_through_the_error_channel() {
    let mut c = SubscriptionController::new();
    c.begin(0);
    let o = c.on_event_payload(b"garbage");
    assert_eq!(c.state, SubscriptionState::TerminatedFailure);
    assert!(o.update.is_none());
    assert_eq!(o.error_code, Some(0));
    assert_eq!(o.error_log, Some(Vec::from(&b"garbage"[..])));
}

#[test]
fn transport_failure_reports_code_zero_and_keeps_the_message() {
    let mut c = SubscriptionController::new();
    c.begin(1);
    let o = c.on_transport_failure("connection refused");
    assert_eq!(c.state, SubscriptionState::TerminatedFailure);
    assert_eq!(o.status_message, None);
    assert_eq!(o.error_code, Some(0));
    assert_eq!(o.error_log, Some(Vec::from(&b"connection refused"[..])));
    assert!(o.first_update.is_none());
}

#[test]
fn status_classification_and_error_code() {
    assert!(is_success(200));
    assert!(is_success(299));
    assert!(!is_success(199));
    assert!(!is_success(300));
    assert!(!is_success(500));
    assert_eq!(error_code_of(404), 404);
    assert_eq!(error_code_of(32767), 32767);
    assert_eq!(error_code_of(40000), 0);
}

#[test]
fn success_message_names_the_agent() {
    assert_eq!(
        success_message("echo_bot"),
        "[echo_bot] Listening for all messages to your bot."
    );
}

#[test]
fn listen_and_revoke_urls_percent_encode_the_token() {
    let url = listen_url(
        "https://telegram.flows.network/api",
        "alice",
        "flow1",
        "123:ab c",
        "__telegram__on_updated",
    );
    assert_eq!(
        url,
        "https://telegram.flows.network/api/alice/flow1/listen?token=123%3Aab%20c\
         &handler_fn=__telegram__on_updated"
    );
    let r = revoke_url("https://telegram.flows.network/api", "alice", "flow1", "123:ab c");
    assert_eq!(
        r,
        "https://telegram.flows.network/api/alice/flow1/revoke?token=123%3Aab%20c"
    );
}

#[test]
fn event_buffer_invariant_is_checked() {
    assert!(validate_event_buffer(12, 12).is_ok());
    match validate_event_buffer(12, 11) {
        Err(TgError::HostBridge(_)) => (),
        _ => panic!("a length mismatch must be a host-bridge error"),
    }
}

#[test]
fn bot_id_is_found_among_headers_without_regard_to_case() {
    let headers = vec![
        (String::from("Content-Type"), String::from("application/json")),
        (
            String::from("X-Telegram-Bot-Api-Secret-Token"),
            String::from("bot42"),
        ),
        (String::from("x-other"), String::from("z")),
    ];
    assert_eq!(bot_id_from_headers(&headers), "bot42");

    let none: Vec<(String, String)> = vec![(String::from("a"), String::from("b"))];
    assert_eq!(bot_id_from_headers(&none), "");
}

#[test]
fn forwarded_headers_decode_from_their_json_form() {
    let b = b"[[\"X-Telegram-Bot-Api-Secret-Token\",\"abc\"],[\"a\",\"b\"]]";
    let hs = decode_headers_bytes(b).unwrap();
    assert_eq!(hs.len(), 2);
    assert_eq!(hs[0].1, "abc");
    assert_eq!(bot_id_from_headers(&hs), "abc");
    assert!(decode_headers_bytes(b"[[\"only-one\"]]").is_none());
    assert!(decode_headers_bytes(b"{\"not\":\"an array\"}").is_none());
}

#[test]
fn event_relay_url() {
    assert_eq!(event_url("https://example.org/api", "bot42"), "https://example.org/api/event/bot42");
}
