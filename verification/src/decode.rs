//! Decoding of envelope results into typed values: for each expected
//! result schema, a spec saying exactly which JSON documents decode and to
//! what, and a verified decoder that follows it.

use vstd::prelude::*;

use crate::error::TgError;
use crate::jsonval::{value_model, json_parse, v_get, v_as_bool, v_as_i64, v_as_u64, v_as_str};
use crate::jsonval::JsonSpec;
use crate::types::{
    Chat, ChatId, ChatInviteLink, ChatInviteLinkV, ChatMember, ChatMemberV, ChatV, CallbackQuery,
    CallbackQueryV, Me, MeV, Message, MessageId, MessageV, True, Update, UpdateKind, UpdateKindV,
    UpdateV, UserId, File, FileV,
};
use vstd::string::StringExecFns;

verus! {

/// The integer under `k`, when the fields hold an integer number there.
pub open spec fn int_field(f: Map<Seq<char>, JsonSpec>, k: Seq<char>) -> Option<int> {
    if f.contains_key(k) && f[k] is Num {
        Some(f[k]->Num_0)
    } else {
        None
    }
}

/// The string under `k`, when the fields hold a string there.
pub open spec fn str_field(f: Map<Seq<char>, JsonSpec>, k: Seq<char>) -> Option<Seq<char>> {
    if f.contains_key(k) && f[k] is Str {
        Some(f[k]->Str_0)
    } else {
        None
    }
}

/// Which JSON documents decode as a chat, and to what: an object whose
/// `id` is an integer that fits the identifier type.
pub open spec fn chat_of_json(j: JsonSpec) -> Option<ChatV> {
    match j {
        JsonSpec::Obj(f) => match int_field(f, "id"@) {
            Some(n) => if i64::MIN <= n <= i64::MAX {
                Some(ChatV { id: n })
            } else {
                None
            },
            None => None,
        },
        _ => None,
    }
}

/// Which JSON documents decode as a message, and to what: an object with
/// an integer `message_id` that fits the identifier type, a decodable
/// `chat`, and — when a `text` member is present at all — a string `text`.
pub open spec fn message_of_json(j: JsonSpec) -> Option<MessageV> {
    match j {
        JsonSpec::Obj(f) => {
            let mid = int_field(f, "message_id"@);
            let chat = if f.contains_key("chat"@) {
                chat_of_json(f["chat"@])
            } else {
                None
            };
            match (mid, chat) {
                (Some(n), Some(c)) => if i32::MIN <= n <= i32::MAX {
                    if f.contains_key("text"@) {
                        match f["text"@] {
                            JsonSpec::Str(s) => Some(MessageV { id: n, chat: c, text: Some(s) }),
                            _ => None,
                        }
                    } else {
                        Some(MessageV { id: n, chat: c, text: None })
                    }
                } else {
                    None
                },
                _ => None,
            }
        },
        _ => None,
    }
}

/// Which JSON documents decode as the bot's own account, and to what.
pub open spec fn me_of_json(j: JsonSpec) -> Option<MeV> {
    match j {
        JsonSpec::Obj(f) => {
            let id = int_field(f, "id"@);
            let name = str_field(f, "first_name"@);
            let bot = f.contains_key("is_bot"@) && f["is_bot"@] is Bool;
            match (id, name) {
                (Some(n), Some(fname)) => if 0 <= n <= u64::MAX && bot {
                    if f.contains_key("username"@) {
                        match f["username"@] {
                            JsonSpec::Str(u) => Some(
                                MeV {
                                    id: n,
                                    is_bot: f["is_bot"@]->Bool_0,
                                    first_name: fname,
                                    username: Some(u),
                                },
                            ),
                            _ => None,
                        }
                    } else {
                        Some(
                            MeV {
                                id: n,
                                is_bot: f["is_bot"@]->Bool_0,
                                first_name: fname,
                                username: None,
                            },
                        )
                    }
                } else {
                    None
                },
                _ => None,
            }
        },
        _ => None,
    }
}

/// Which JSON documents decode as a chat member, and to what: an object
/// with a string `status` and a `user` object whose `id` is an integer
/// that fits the identifier type.
pub open spec fn chat_member_of_json(j: JsonSpec) -> Option<ChatMemberV> {
    match j {
        JsonSpec::Obj(f) => {
            let status = str_field(f, "status"@);
            let uid = if f.contains_key("user"@) {
                match f["user"@] {
                    JsonSpec::Obj(uf) => int_field(uf, "id"@),
                    _ => None,
                }
            } else {
                None
            };
            match (status, uid) {
                (Some(s), Some(n)) => if 0 <= n <= u64::MAX {
                    Some(ChatMemberV { user_id: n, status: s })
                } else {
                    None
                },
                _ => None,
            }
        },
        _ => None,
    }
}

/// Which JSON documents decode as an invite link, and to what.
pub open spec fn invite_link_of_json(j: JsonSpec) -> Option<ChatInviteLinkV> {
    match j {
        JsonSpec::Obj(f) => match str_field(f, "invite_link"@) {
            Some(l) => Some(ChatInviteLinkV { invite_link: l }),
            None => None,
        },
        _ => None,
    }
}

/// Which JSON documents decode as a profile-photo count, and to what.
pub open spec fn photos_total_of_json(j: JsonSpec) -> Option<int> {
    match j {
        JsonSpec::Obj(f) => match int_field(f, "total_count"@) {
            Some(n) => if i64::MIN <= n <= i64::MAX {
                Some(n)
            } else {
                None
            },
            None => None,
        },
        _ => None,
    }
}

/// Which JSON documents decode as a file, and to what.
pub open spec fn file_of_json(j: JsonSpec) -> Option<FileV> {
    match j {
        JsonSpec::Obj(f) => match str_field(f, "file_id"@) {
            Some(id) => Some(FileV { file_id: id }),
            None => None,
        },
        _ => None,
    }
}

/// Which JSON documents decode as a bare integer that fits an `i32`.
pub open spec fn i32_of_json(j: JsonSpec) -> Option<int> {
    match j {
        JsonSpec::Num(n) => if i32::MIN <= n <= i32::MAX {
            Some(n)
        } else {
            None
        },
        _ => None,
    }
}

/// Which JSON documents decode as a bare string.
pub open spec fn string_of_json(j: JsonSpec) -> Option<Seq<char>> {
    match j {
        JsonSpec::Str(s) => Some(s),
        _ => None,
    }
}

/// Which JSON documents decode as a callback query, and to what.
pub open spec fn callback_query_of_json(j: JsonSpec) -> Option<CallbackQueryV> {
    match j {
        JsonSpec::Obj(f) => match str_field(f, "id"@) {
            Some(id) => if f.contains_key("data"@) {
                match f["data"@] {
                    JsonSpec::Str(d) => Some(CallbackQueryV { id: id, data: Some(d) }),
                    _ => None,
                }
            } else {
                Some(CallbackQueryV { id: id, data: None })
            },
            None => None,
        },
        _ => None,
    }
}

/// Which JSON documents decode as an inbound update, and to what: an
/// object with an integer `update_id`, carrying exactly one of the known
/// event kinds, recognized in a fixed order.
pub open spec fn update_of_json(j: JsonSpec) -> Option<UpdateV> {
    match j {
        JsonSpec::Obj(f) => match int_field(f, "update_id"@) {
            Some(uid) => if i64::MIN <= uid <= i64::MAX {
                if f.contains_key("message"@) {
                    match message_of_json(f["message"@]) {
                        Some(m) => Some(UpdateV { id: uid, kind: UpdateKindV::Message(m) }),
                        None => None,
                    }
                } else if f.contains_key("edited_message"@) {
                    match message_of_json(f["edited_message"@]) {
                        Some(m) => Some(UpdateV { id: uid, kind: UpdateKindV::EditedMessage(m) }),
                        None => None,
                    }
                } else if f.contains_key("channel_post"@) {
                    match message_of_json(f["channel_post"@]) {
                        Some(m) => Some(UpdateV { id: uid, kind: UpdateKindV::ChannelPost(m) }),
                        None => None,
                    }
                } else if f.contains_key("edited_channel_post"@) {
                    match message_of_json(f["edited_channel_post"@]) {
                        Some(m) => Some(
                            UpdateV { id: uid, kind: UpdateKindV::EditedChannelPost(m) },
                        ),
                        None => None,
                    }
                } else if f.contains_key("callback_query"@) {
                    match callback_query_of_json(f["callback_query"@]) {
                        Some(q) => Some(UpdateV { id: uid, kind: UpdateKindV::CallbackQuery(q) }),
                        None => None,
                    }
                } else {
                    None
                }
            } else {
                None
            },
            None => None,
        },
        _ => None,
    }
}

/// What decoding a raw event payload yields: the update of the JSON
/// document the bytes hold, if they hold a decodable one.
pub open spec fn update_from_bytes_spec(b: Seq<u8>) -> Option<UpdateV> {
    match json_parse(b) {
        Some(j) => update_of_json(j),
        None => None,
    }
}

/// A schema error naming the shape that was expected.
fn schema_err(what: &str) -> (r: TgError)
    ensures
        r is Schema,
{
    TgError::Schema(String::from_str(what))
}

/// Decodes a result value as a chat.
pub fn decode_chat(v: &serde_json::Value) -> (r: Result<Chat, TgError>)
    ensures
        match chat_of_json(value_model(*v)) {
            Some(c) => r matches Ok(x) && x@ == c,
            None => r matches Err(e) && e is Schema,
        },
{
    let id = match v_get(v, "id") {
        Some(f) => match v_as_i64(f) {
            Some(n) => n,
            None => return Err(schema_err("chat: integer id expected")),
        },
        None => return Err(schema_err("chat: id expected")),
    };
    Ok(Chat { id: ChatId(id) })
}

/// Decodes a result value as a message.
pub fn decode_message(v: &serde_json::Value) -> (r: Result<Message, TgError>)
    ensures
        match message_of_json(value_model(*v)) {
            Some(m) => r matches Ok(x) && x@ == m,
            None => r matches Err(e) && e is Schema,
        },
{
    let mid = match v_get(v, "message_id") {
        Some(f) => match v_as_i64(f) {
            Some(n) => n,
            None => return Err(schema_err("message: integer message_id expected")),
        },
        None => return Err(schema_err("message: message_id expected")),
    };
    if mid < i32::MIN as i64 || mid > i32::MAX as i64 {
        return Err(schema_err("message: message_id out of range"));
    }
    let chat = match v_get(v, "chat") {
        Some(f) => match decode_chat(f) {
            Ok(c) => c,
            Err(e) => return Err(e),
        },
        None => return Err(schema_err("message: chat expected")),
    };
    let text = match v_get(v, "text") {
        Some(f) => match v_as_str(f) {
            Some(s) => Some(String::from_str(s)),
            None => return Err(schema_err("message: string text expected")),
        },
        None => None,
    };
    Ok(Message { id: MessageId(mid as i32), chat, text })
}

/// Decodes a result value as the bare boolean `true`.
pub fn decode_true(v: &serde_json::Value) -> (r: Result<True, TgError>)
    ensures
        if value_model(*v) == JsonSpec::Bool(true) {
            r is Ok
        } else {
            r matches Err(e) && e is Schema
        },
{
    match v_as_bool(v) {
        Some(true) => Ok(True),
        _ => Err(schema_err("boolean true expected")),
    }
}

/// Decodes a result value as the bot's own account.
pub fn decode_me(v: &serde_json::Value) -> (r: Result<Me, TgError>)
    ensures
        match me_of_json(value_model(*v)) {
            Some(m) => r matches Ok(x) && x@ == m,
            None => r matches Err(e) && e is Schema,
        },
{
    let id = match v_get(v, "id") {
        Some(f) => match v_as_u64(f) {
            Some(n) => n,
            None => return Err(schema_err("me: integer id expected")),
        },
        None => return Err(schema_err("me: id expected")),
    };
    let is_bot = match v_get(v, "is_bot") {
        Some(f) => match v_as_bool(f) {
            Some(b) => b,
            None => return Err(schema_err("me: boolean is_bot expected")),
        },
        None => return Err(schema_err("me: is_bot expected")),
    };
    let first_name = match v_get(v, "first_name") {
        Some(f) => match v_as_str(f) {
            Some(s) => String::from_str(s),
            None => return Err(schema_err("me: string first_name expected")),
        },
        None => return Err(schema_err("me: first_name expected")),
    };
    let username = match v_get(v, "username") {
        Some(f) => match v_as_str(f) {
            Some(s) => Some(String::from_str(s)),
            None => return Err(schema_err("me: string username expected")),
        },
        None => None,
    };
    Ok(Me { id: UserId(id), is_bot, first_name, username })
}

/// Decodes a result value as a chat member.
pub fn decode_chat_member(v: &serde_json::Value) -> (r: Result<ChatMember, TgError>)
    ensures
        match chat_member_of_json(value_model(*v)) {
            Some(m) => r matches Ok(x) && x@ == m,
            None => r matches Err(e) && e is Schema,
        },
{
    let status = match v_get(v, "status") {
        Some(f) => match v_as_str(f) {
            Some(s) => String::from_str(s),
            None => return Err(schema_err("chat member: string status expected")),
        },
        None => return Err(schema_err("chat member: status expected")),
    };
    let user_id = match v_get(v, "user") {
        Some(u) => match v_get(u, "id") {
            Some(f) => match v_as_u64(f) {
                Some(n) => n,
                None => return Err(schema_err("chat member: integer user id expected")),
            },
            None => return Err(schema_err("chat member: user id expected")),
        },
        None => return Err(schema_err("chat member: user expected")),
    };
    Ok(ChatMember { user_id: UserId(user_id), status })
}

/// Decodes a result value as an invite link.
pub fn decode_invite_link(v: &serde_json::Value) -> (r: Result<ChatInviteLink, TgError>)
    ensures
        match invite_link_of_json(value_model(*v)) {
            Some(l) => r matches Ok(x) && x@ == l,
            None => r matches Err(e) && e is Schema,
        },
{
    match v_get(v, "invite_link") {
        Some(f) => match v_as_str(f) {
            Some(s) => Ok(ChatInviteLink { invite_link: String::from_str(s) }),
            None => Err(schema_err("invite link: string invite_link expected")),
        },
        None => Err(schema_err("invite link: invite_link expected")),
    }
}

/// Decodes a result value as a profile-photo count.
pub fn decode_photos_total(v: &serde_json::Value) -> (r: Result<i64, TgError>)
    ensures
        match photos_total_of_json(value_model(*v)) {
            Some(n) => r matches Ok(x) && x as int == n,
            None => r matches Err(e) && e is Schema,
        },
{
    match v_get(v, "total_count") {
        Some(f) => match v_as_i64(f) {
            Some(n) => Ok(n),
            None => Err(schema_err("profile photos: integer total_count expected")),
        },
        None => Err(schema_err("profile photos: total_count expected")),
    }
}

/// Decodes a result value as a file.
pub fn decode_file(v: &serde_json::Value) -> (r: Result<File, TgError>)
    ensures
        match file_of_json(value_model(*v)) {
            Some(f) => r matches Ok(x) && x@ == f,
            None => r matches Err(e) && e is Schema,
        },
{
    match v_get(v, "file_id") {
        Some(f) => match v_as_str(f) {
            Some(s) => Ok(File { file_id: String::from_str(s) }),
            None => Err(schema_err("file: string file_id expected")),
        },
        None => Err(schema_err("file: file_id expected")),
    }
}

/// Decodes a result value as a bare integer count.
pub fn decode_i32(v: &serde_json::Value) -> (r: Result<i32, TgError>)
    ensures
        match i32_of_json(value_model(*v)) {
            Some(n) => r matches Ok(x) && x as int == n,
            None => r matches Err(e) && e is Schema,
        },
{
    match v_as_i64(v) {
        Some(n) => if n < i32::MIN as i64 || n > i32::MAX as i64 {
            Err(schema_err("integer out of range"))
        } else {
            Ok(n as i32)
        },
        None => Err(schema_err("integer expected")),
    }
}

/// Decodes a result value as a bare string.
pub fn decode_string(v: &serde_json::Value) -> (r: Result<String, TgError>)
    ensures
        match string_of_json(value_model(*v)) {
            Some(s) => r matches Ok(x) && x@ == s,
            None => r matches Err(e) && e is Schema,
        },
{
    match v_as_str(v) {
        Some(s) => Ok(String::from_str(s)),
        None => Err(schema_err("string expected")),
    }
}

/// Decodes a result value as a callback query.
pub fn decode_callback_query(v: &serde_json::Value) -> (r: Result<CallbackQuery, TgError>)
    ensures
        match callback_query_of_json(value_model(*v)) {
            Some(q) => r matches Ok(x) && x@ == q,
            None => r matches Err(e) && e is Schema,
        },
{
    let id = match v_get(v, "id") {
        Some(f) => match v_as_str(f) {
            Some(s) => String::from_str(s),
            None => return Err(schema_err("callback query: string id expected")),
        },
        None => return Err(schema_err("callback query: id expected")),
    };
    let data = match v_get(v, "data") {
        Some(f) => match v_as_str(f) {
            Some(s) => Some(String::from_str(s)),
            None => return Err(schema_err("callback query: string data expected")),
        },
        None => None,
    };
    Ok(CallbackQuery { id, data })
}

/// Decodes a JSON value as an inbound update.
pub fn decode_update(v: &serde_json::Value) -> (r: Result<Update, TgError>)
    ensures
        match update_of_json(value_model(*v)) {
            Some(u) => r matches Ok(x) && x@ == u,
            None => r matches Err(e) && e is Schema,
        },
{
    let uid = match v_get(v, "update_id") {
        Some(f) => match v_as_i64(f) {
            Some(n) => n,
            None => return Err(schema_err("update: integer update_id expected")),
        },
        None => return Err(schema_err("update: update_id expected")),
    };
    if let Some(f) = v_get(v, "message") {
        return match decode_message(f) {
            Ok(m) => Ok(Update { id: uid, kind: UpdateKind::Message(m) }),
            Err(e) => Err(e),
        };
    }
    if let Some(f) = v_get(v, "edited_message") {
        return match decode_message(f) {
            Ok(m) => Ok(Update { id: uid, kind: UpdateKind::EditedMessage(m) }),
            Err(e) => Err(e),
        };
    }
    if let Some(f) = v_get(v, "channel_post") {
        return match decode_message(f) {
            Ok(m) => Ok(Update { id: uid, kind: UpdateKind::ChannelPost(m) }),
            Err(e) => Err(e),
        };
    }
    if let Some(f) = v_get(v, "edited_channel_post") {
        return match decode_message(f) {
            Ok(m) => Ok(Update { id: uid, kind: UpdateKind::EditedChannelPost(m) }),
            Err(e) => Err(e),
        };
    }
    if let Some(f) = v_get(v, "callback_query") {
        return match decode_callback_query(f) {
            Ok(q) => Ok(Update { id: uid, kind: UpdateKind::CallbackQuery(q) }),
            Err(e) => Err(e),
        };
    }
    Err(schema_err("update: no known event kind present"))
}

/// Decodes a raw event payload, bytes straight from the host buffer, as an
/// inbound update. Yields nothing when the bytes are not a valid document
/// or the document is not a decodable update.
pub fn decode_update_bytes(b: &[u8]) -> (r: Option<Update>)
    ensures
        match update_from_bytes_spec(b@) {
            Some(u) => r matches Some(x) && x@ == u,
            None => r is None,
        },
{
    match crate::jsonval::parse_json(b) {
        Some(v) => match decode_update(&v) {
            Ok(u) => Some(u),
            Err(_) => None,
        },
        None => None,
    }
}

} // verus!
