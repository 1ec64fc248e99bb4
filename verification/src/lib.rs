//! Client library for a remote messaging-bot HTTP API.
//!
//! The crate covers the request/response dispatch pipeline (method catalog,
//! attachment classification, request-body construction, response-envelope
//! handling, typed result decoding) and the event-subscription state machine
//! that a hosting platform drives once per external trigger.

pub mod api;
pub mod bridge;
pub mod controller;
pub mod decode;
pub mod envelope;
pub mod error;
pub mod input_file;
pub mod jsonval;
pub mod method;
pub mod render;
pub mod types;

pub use api::{
    body_chat, body_chat_from_chat, body_chat_i64, body_chat_permissions, body_chat_str,
    body_chat_user, body_chat_user_permissions, body_chat_user_str, body_copy_message,
    body_edit_message_text, body_file_id, body_send_contract, body_send_poll, body_user,
    send_message_body, Telegram,
};
pub use bridge::{bot_id_from_headers, decode_headers_bytes, event_url};
pub use controller::{
    error_code_of, is_success, listen_url, revoke_url, success_message, validate_event_buffer,
    DeliveryOutcome, RegistrationOutcome, SubscriptionController, SubscriptionState,
};
pub use decode::{
    decode_callback_query, decode_chat, decode_chat_member, decode_file, decode_i32,
    decode_invite_link, decode_me, decode_message, decode_string, decode_true, decode_update,
    decode_update_bytes,
};
pub use envelope::{
    chat_from_response, chat_member_from_response, envelope_check, file_from_response,
    i32_from_response, invite_link_from_response, me_from_response, message_from_response,
    photos_total_from_response, response_result, string_from_response, true_from_response,
};
pub use error::TgError;
pub use input_file::InputFile;
pub use method::Method;
pub use render::ParamValue;
pub use types::{
    CallbackQuery, Chat, ChatId, ChatInviteLink, ChatMember, ChatPermissions, File, Me, Message,
    MessageId, True, Update, UpdateKind, UserId, UserProfilePhotos,
};
