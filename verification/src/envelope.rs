//! The response envelope: every remote answer is a JSON wrapper
//! `{ ok, result?, description? }`, and dispatch either unwraps the result
//! or fails with the remote's description.

use vstd::prelude::*;

use crate::decode::{
    chat_member_of_json, chat_of_json, decode_chat, decode_chat_member, decode_file,
    decode_i32, decode_invite_link, decode_me, decode_message, decode_photos_total,
    decode_string, decode_true, file_of_json, i32_of_json, invite_link_of_json, me_of_json,
    message_of_json, photos_total_of_json, string_of_json,
};
use crate::error::TgError;
use crate::jsonval::{json_parse, parse_json, v_as_bool, v_as_str, v_clone, v_get, value_model};
use crate::jsonval::JsonSpec;
use crate::types::{Chat, ChatInviteLink, ChatMember, File, Me, Message, True};
use vstd::string::StringExecFns;

verus! {

/// The two outcomes of reading a response envelope: the payload of a
/// successful answer, or the remote's failure description.
pub enum EnvelopeSpec {
    Success(JsonSpec),
    Failure(Seq<char>),
}

/// The failure description an envelope carries: its string `description`
/// member, or nothing when it has none.
pub open spec fn description_of(f: Map<Seq<char>, JsonSpec>) -> Seq<char> {
    if f.contains_key("description"@) && f["description"@] is Str {
        f["description"@]->Str_0
    } else {
        Seq::empty()
    }
}

/// How one parsed envelope document is read: success exactly when `ok` is
/// the boolean `true` and a `result` member is present, carrying that
/// result; otherwise failure, carrying the `description` when the remote
/// sent one. A document that is no object at all is a failure without a
/// description.
pub open spec fn envelope_of_json(j: JsonSpec) -> EnvelopeSpec {
    match j {
        JsonSpec::Obj(f) => if f.contains_key("ok"@) && f["ok"@] == JsonSpec::Bool(true)
            && f.contains_key("result"@) {
            EnvelopeSpec::Success(f["result"@])
        } else {
            EnvelopeSpec::Failure(description_of(f))
        },
        _ => EnvelopeSpec::Failure(Seq::empty()),
    }
}

/// How raw response bytes are read: the envelope of the document they
/// hold; bytes that are not one valid JSON document are a failure without
/// a description.
pub open spec fn response_spec(b: Seq<u8>) -> EnvelopeSpec {
    match json_parse(b) {
        Some(j) => envelope_of_json(j),
        None => EnvelopeSpec::Failure(Seq::empty()),
    }
}

/// Unwraps a parsed envelope: the `result` value on success, otherwise a
/// protocol error carrying exactly the envelope's description.
pub fn envelope_check<'a>(v: &'a serde_json::Value) -> (r: Result<&'a serde_json::Value, TgError>)
    ensures
        match envelope_of_json(value_model(*v)) {
            EnvelopeSpec::Success(j) => r matches Ok(x) && value_model(*x) == j,
            EnvelopeSpec::Failure(d) => r matches Err(e) && e matches TgError::Protocol(m) && m@
                == d,
        },
{
    let ok = match v_get(v, "ok") {
        Some(f) => match v_as_bool(f) {
            Some(b) => b,
            None => false,
        },
        None => false,
    };
    if ok {
        if let Some(res) = v_get(v, "result") {
            return Ok(res);
        }
    }
    let d = match v_get(v, "description") {
        Some(f) => match v_as_str(f) {
            Some(s) => String::from_str(s),
            None => String::new(),
        },
        None => String::new(),
    };
    Err(TgError::Protocol(d))
}

/// Unwraps raw response bytes: the owned `result` value of a successful
/// envelope, otherwise a protocol error carrying the remote description.
pub fn response_result(body: &[u8]) -> (r: Result<serde_json::Value, TgError>)
    ensures
        match response_spec(body@) {
            EnvelopeSpec::Success(j) => r matches Ok(x) && value_model(x) == j,
            EnvelopeSpec::Failure(d) => r matches Err(e) && e matches TgError::Protocol(m) && m@
                == d,
        },
{
    match parse_json(body) {
        Some(v) => match envelope_check(&v) {
            Ok(res) => Ok(v_clone(res)),
            Err(e) => Err(e),
        },
        None => Err(TgError::Protocol(String::new())),
    }
}

/// A successful envelope dispatches to its own `result`, structurally: an
/// object whose `ok` is the boolean `true` and which carries a `result`
/// member unwraps to exactly that member.
pub proof fn lemma_envelope_success(f: Map<Seq<char>, JsonSpec>)
    requires
        f.contains_key("ok"@),
        f["ok"@] == JsonSpec::Bool(true),
        f.contains_key("result"@),
    ensures
        envelope_of_json(JsonSpec::Obj(f)) == EnvelopeSpec::Success(f["result"@]),
{
}

/// A failing envelope fails with the remote's own words: an object whose
/// `ok` is the boolean `false` and whose `description` is a string yields
/// a failure carrying exactly that description, whatever the operation
/// that sent the request was.
pub proof fn lemma_envelope_failure(f: Map<Seq<char>, JsonSpec>)
    requires
        f.contains_key("ok"@),
        f["ok"@] == JsonSpec::Bool(false),
        f.contains_key("description"@),
        f["description"@] is Str,
    ensures
        envelope_of_json(JsonSpec::Obj(f)) == EnvelopeSpec::Failure(
            f["description"@]->Str_0,
        ),
{
}

/// Reads a raw response as a message: the decoded `result` of a successful
/// envelope, a protocol error with the remote description on a failing
/// one, a schema error when the result has the wrong shape.
pub fn message_from_response(body: &[u8]) -> (r: Result<Message, TgError>)
    ensures
        match response_spec(body@) {
            EnvelopeSpec::Success(j) => match message_of_json(j) {
                Some(m) => r matches Ok(x) && x@ == m,
                None => r matches Err(e) && e is Schema,
            },
            EnvelopeSpec::Failure(d) => r matches Err(e) && e matches TgError::Protocol(m) && m@
                == d,
        },
{
    match parse_json(body) {
        Some(v) => match envelope_check(&v) {
            Ok(res) => decode_message(res),
            Err(e) => Err(e),
        },
        None => Err(TgError::Protocol(String::new())),
    }
}

/// Reads a raw response as the bare boolean `true`; see
/// [`message_from_response`] for the error classification.
pub fn true_from_response(body: &[u8]) -> (r: Result<True, TgError>)
    ensures
        match response_spec(body@) {
            EnvelopeSpec::Success(j) => if j == JsonSpec::Bool(true) {
                r is Ok
            } else {
                r matches Err(e) && e is Schema
            },
            EnvelopeSpec::Failure(d) => r matches Err(e) && e matches TgError::Protocol(m) && m@
                == d,
        },
{
    match parse_json(body) {
        Some(v) => match envelope_check(&v) {
            Ok(res) => decode_true(res),
            Err(e) => Err(e),
        },
        None => Err(TgError::Protocol(String::new())),
    }
}

/// Reads a raw response as the bot's own account.
pub fn me_from_response(body: &[u8]) -> (r: Result<Me, TgError>)
    ensures
        match response_spec(body@) {
            EnvelopeSpec::Success(j) => match me_of_json(j) {
                Some(m) => r matches Ok(x) && x@ == m,
                None => r matches Err(e) && e is Schema,
            },
            EnvelopeSpec::Failure(d) => r matches Err(e) && e matches TgError::Protocol(m) && m@
                == d,
        },
{
    match parse_json(body) {
        Some(v) => match envelope_check(&v) {
            Ok(res) => decode_me(res),
            Err(e) => Err(e),
        },
        None => Err(TgError::Protocol(String::new())),
    }
}

/// Reads a raw response as a chat.
pub fn chat_from_response(body: &[u8]) -> (r: Result<Chat, TgError>)
    ensures
        match response_spec(body@) {
            EnvelopeSpec::Success(j) => match chat_of_json(j) {
                Some(c) => r matches Ok(x) && x@ == c,
                None => r matches Err(e) && e is Schema,
            },
            EnvelopeSpec::Failure(d) => r matches Err(e) && e matches TgError::Protocol(m) && m@
                == d,
        },
{
    match parse_json(body) {
        Some(v) => match envelope_check(&v) {
            Ok(res) => decode_chat(res),
            Err(e) => Err(e),
        },
        None => Err(TgError::Protocol(String::new())),
    }
}

/// Reads a raw response as a chat member. A failing envelope never yields
/// a member value, defaulted or otherwise: it is always the protocol
/// error.
pub fn chat_member_from_response(body: &[u8]) -> (r: Result<ChatMember, TgError>)
    ensures
        match response_spec(body@) {
            EnvelopeSpec::Success(j) => match chat_member_of_json(j) {
                Some(m) => r matches Ok(x) && x@ == m,
                None => r matches Err(e) && e is Schema,
            },
            EnvelopeSpec::Failure(d) => r matches Err(e) && e matches TgError::Protocol(m) && m@
                == d,
        },
{
    match parse_json(body) {
        Some(v) => match envelope_check(&v) {
            Ok(res) => decode_chat_member(res),
            Err(e) => Err(e),
        },
        None => Err(TgError::Protocol(String::new())),
    }
}

/// Reads a raw response as an invite link.
pub fn invite_link_from_response(body: &[u8]) -> (r: Result<ChatInviteLink, TgError>)
    ensures
        match response_spec(body@) {
            EnvelopeSpec::Success(j) => match invite_link_of_json(j) {
                Some(l) => r matches Ok(x) && x@ == l,
                None => r matches Err(e) && e is Schema,
            },
            EnvelopeSpec::Failure(d) => r matches Err(e) && e matches TgError::Protocol(m) && m@
                == d,
        },
{
    match parse_json(body) {
        Some(v) => match envelope_check(&v) {
            Ok(res) => decode_invite_link(res),
            Err(e) => Err(e),
        },
        None => Err(TgError::Protocol(String::new())),
    }
}

/// Reads a raw response as a profile-photo count.
pub fn photos_total_from_response(body: &[u8]) -> (r: Result<i64, TgError>)
    ensures
        match response_spec(body@) {
            EnvelopeSpec::Success(j) => match photos_total_of_json(j) {
                Some(n) => r matches Ok(x) && x as int == n,
                None => r matches Err(e) && e is Schema,
            },
            EnvelopeSpec::Failure(d) => r matches Err(e) && e matches TgError::Protocol(m) && m@
                == d,
        },
{
    match parse_json(body) {
        Some(v) => match envelope_check(&v) {
            Ok(res) => decode_photos_total(res),
            Err(e) => Err(e),
        },
        None => Err(TgError::Protocol(String::new())),
    }
}

/// Reads a raw response as a file.
pub fn file_from_response(body: &[u8]) -> (r: Result<File, TgError>)
    ensures
        match response_spec(body@) {
            EnvelopeSpec::Success(j) => match file_of_json(j) {
                Some(f) => r matches Ok(x) && x@ == f,
                None => r matches Err(e) && e is Schema,
            },
            EnvelopeSpec::Failure(d) => r matches Err(e) && e matches TgError::Protocol(m) && m@
                == d,
        },
{
    match parse_json(body) {
        Some(v) => match envelope_check(&v) {
            Ok(res) => decode_file(res),
            Err(e) => Err(e),
        },
        None => Err(TgError::Protocol(String::new())),
    }
}

/// Reads a raw response as a bare integer count.
pub fn i32_from_response(body: &[u8]) -> (r: Result<i32, TgError>)
    ensures
        match response_spec(body@) {
            EnvelopeSpec::Success(j) => match i32_of_json(j) {
                Some(n) => r matches Ok(x) && x as int == n,
                None => r matches Err(e) && e is Schema,
            },
            EnvelopeSpec::Failure(d) => r matches Err(e) && e matches TgError::Protocol(m) && m@
                == d,
        },
{
    match parse_json(body) {
        Some(v) => match envelope_check(&v) {
            Ok(res) => decode_i32(res),
            Err(e) => Err(e),
        },
        None => Err(TgError::Protocol(String::new())),
    }
}

/// Reads a raw response as a bare string.
pub fn string_from_response(body: &[u8]) -> (r: Result<String, TgError>)
    ensures
        match response_spec(body@) {
            EnvelopeSpec::Success(j) => match string_of_json(j) {
                Some(s) => r matches Ok(x) && x@ == s,
                None => r matches Err(e) && e is Schema,
            },
            EnvelopeSpec::Failure(d) => r matches Err(e) && e matches TgError::Protocol(m) && m@
                == d,
        },
{
    match parse_json(body) {
        Some(v) => match envelope_check(&v) {
            Ok(res) => decode_string(res),
            Err(e) => Err(e),
        },
        None => Err(TgError::Protocol(String::new())),
    }
}

} // verus!
