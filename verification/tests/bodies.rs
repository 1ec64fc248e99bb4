//! Exact request bodies, query strings, and URLs.

use tg_flows::{
    body_chat, body_chat_i64, body_chat_permissions, body_chat_str, body_chat_user,
    body_copy_message, body_edit_message_text, body_file_id, body_send_poll, body_user,
    send_message_body, ChatId, ChatPermissions, Message, MessageId, Method, Telegram, UserId,
};

#[test]
fn send_message_body_is_exact() {
    let body = send_message_body(ChatId(123456), "bonjour!");
    assert_eq!(body, "{\"chat_id\":123456,\"text\":\"bonjour!\"}");
}

#[test]
fn send_message_body_negative_chat_id() {
    let body = send_message_body(ChatId(-1001234567890), "hi");
    assert_eq!(body, "{\"chat_id\":-1001234567890,\"text\":\"hi\"}");
}

#[test]
fn string_values_are_json_escaped() {
    let body = body_chat_str(ChatId(7), "text", "a\"b\\c\nd\te\rf\u{1}g");
    assert_eq!(
        body,
        "{\"chat_id\":7,\"text\":\"a\\\"b\\\\c\\nd\\te\\rf\\u0001g\"}"
    );
}

#[test]
fn empty_text_body() {
    let body = send_message_body(ChatId(0), "");
    assert_eq!(body, "{\"chat_id\":0,\"text\":\"\"}");
}

#[test]
fn chat_only_body() {
    assert_eq!(body_chat(ChatId(42)), "{\"chat_id\":42}");
}

#[test]
fn chat_user_body_holds_large_user_id() {
    let body = body_chat_user(ChatId(-5), UserId(18446744073709551615));
    assert_eq!(
        body,
        "{\"chat_id\":-5,\"user_id\":18446744073709551615}"
    );
}

#[test]
fn copy_message_body_names_all_three_identifiers() {
    let body = body_copy_message(ChatId(1), ChatId(2), MessageId(3));
    assert_eq!(
        body,
        "{\"chat_id\":1,\"from_chat_id\":2,\"message_id\":3}"
    );
}

#[test]
fn integer_keyed_body() {
    let body = body_chat_i64(ChatId(9), "message_id", -77);
    assert_eq!(body, "{\"chat_id\":9,\"message_id\":-77}");
}

#[test]
fn poll_body_keeps_option_order() {
    let options = vec![String::from("yes"), String::from("no")];
    let body = body_send_poll(ChatId(5), "ready?", &options);
    assert_eq!(
        body,
        "{\"chat_id\":5,\"question\":\"ready?\",\"options\":[\"yes\",\"no\"]}"
    );
}

#[test]
fn permissions_body_renders_flag_object() {
    let p = ChatPermissions {
        can_send_messages: true,
        can_send_media_messages: false,
        can_send_polls: true,
        can_send_other_messages: false,
        can_add_web_page_previews: false,
        can_change_info: false,
        can_invite_users: true,
        can_pin_messages: false,
    };
    let body = body_chat_permissions(ChatId(3), &p);
    assert_eq!(
        body,
        "{\"chat_id\":3,\"permissions\":{\"can_send_messages\":true,\
         \"can_send_media_messages\":false,\"can_send_polls\":true,\
         \"can_send_other_messages\":false,\"can_add_web_page_previews\":false,\
         \"can_change_info\":false,\"can_invite_users\":true,\
         \"can_pin_messages\":false}}"
    );
}

#[test]
fn edit_message_text_body() {
    let body = body_edit_message_text(ChatId(11), MessageId(12), "fixed");
    assert_eq!(
        body,
        "{\"chat_id\":11,\"message_id\":12,\"text\":\"fixed\"}"
    );
}

#[test]
fn user_and_file_bodies() {
    assert_eq!(body_user(UserId(8)), "{\"user_id\":8}");
    assert_eq!(body_file_id("abc"), "{\"file_id\":\"abc\"}");
}

#[test]
fn request_url_joins_base_token_and_wire_name() {
    let tele = Telegram::new_with_base_url(String::from("123:abc"), "https://example.org/bot");
    let url = tele.request_url(&Method::SendMessage);
    assert_eq!(url, "https://example.org/bot123:abc/sendMessage");
}

#[test]
fn default_base_url_is_the_remote_api() {
    let tele = Telegram::new(String::from("T"));
    assert_eq!(tele.request_url(&Method::GetMe), "https://api.telegram.org/botT/getMe");
}

#[test]
fn multipart_url_json_encodes_query_pairs() {
    let tele = Telegram::new_with_base_url(String::from("T"), "https://example.org/bot");
    let query = vec![
        (String::from("chat_id"), String::from("5")),
        (String::from("caption"), String::from("a b")),
    ];
    let url = tele.multipart_url(&Method::SendPhoto, &query);
    assert_eq!(
        url,
        "https://example.org/botT/sendPhoto?\"chat_id\"=\"5\"&\"caption\"=\"a b\""
    );
}

#[test]
fn multipart_url_without_pairs_has_no_query() {
    let tele = Telegram::new_with_base_url(String::from("T"), "https://example.org/bot");
    let query: Vec<(String, String)> = Vec::new();
    assert_eq!(tele.multipart_url(&Method::SendPhoto, &query), "https://example.org/botT/sendPhoto");
}

#[test]
fn message_text_accessor() {
    let m = Message {
        id: MessageId(1),
        chat: tg_flows::Chat { id: ChatId(2) },
        text: Some(String::from("hello")),
    };
    assert_eq!(m.text(), Some("hello"));
    let n = Message { id: MessageId(1), chat: tg_flows::Chat { id: ChatId(2) }, text: None };
    assert_eq!(n.text(), None);
}
