//! The request dispatcher: the session context, URL and body
//! construction, the one outbound call per request, and the typed
//! convenience calls over the core dispatch pipeline.

use vstd::prelude::*;

use crate::envelope::{
    chat_from_response, chat_member_from_response, file_from_response, i32_from_response,
    invite_link_from_response, me_from_response, message_from_response,
    photos_total_from_response, response_result, string_from_response, true_from_response,
};
use crate::error::TgError;
use crate::input_file::{needs_upload_spec, InputFile};
use crate::method::{wire_name_spec, Method};
use crate::render::{
    chars_to_string, params_view, push_str_chars, query_view, render_body_string,
    render_body_spec, render_query, render_query_spec, ParamSpec, ParamValue,
};
use crate::types::{
    Chat, ChatId, ChatInviteLink, ChatMember, ChatPermissions, File, Me, Message, MessageId,
    True, UserId, UserProfilePhotos,
};
use vstd::string::StringExecFns;

verus! {

/// Relies on http_req's `Uri::try_from` and `Request`: builds one outbound
/// request to `url` with the given content type and body, sends it, and
/// hands back the numeric status code and the raw response body, or the
/// transport layer's error message. The outcome depends on the network;
/// nothing is promised of it.
#[verifier::external_body]
pub(crate) fn http_send(url: &str, content_type: &str, body: &[u8]) -> (r: Result<
    (u16, Vec<u8>),
    String,
>) {
    let uri = match http_req::uri::Uri::try_from(url) {
        Ok(u) => u,
        Err(e) => return Err(e.to_string()),
    };
    let mut writer = Vec::new();
    let res = http_req::request::Request::new(&uri)
        .header("Content-Type", content_type)
        .header("Content-Length", &body.len())
        .body(body)
        .send(&mut writer);
    match res {
        Ok(resp) => Ok((u16::from(resp.status_code()), writer)),
        Err(e) => Err(e.to_string()),
    }
}

/// Relies on http_req's `request::get`: one outbound GET request to `url`,
/// handing back the numeric status code and the raw response body, or the
/// transport layer's error message. The outcome depends on the network;
/// nothing is promised of it.
#[verifier::external_body]
pub(crate) fn http_get(url: &str) -> (r: Result<(u16, Vec<u8>), String>) {
    let mut writer = Vec::new();
    match http_req::request::get(url, &mut writer) {
        Ok(resp) => Ok((u16::from(resp.status_code()), writer)),
        Err(e) => Err(e.to_string()),
    }
}

/// The session context of the dispatcher: where requests go and the bot
/// token naming the bot. Set once at construction and never mutated.
pub struct Telegram {
    base_url: String,
    token: String,
}

/// The request URL of one operation: base, token, then the wire method
/// name after a slash.
pub open spec fn request_url_spec(base: Seq<char>, token: Seq<char>, m: Method) -> Seq<char> {
    base + token + seq!['/'] + wire_name_spec(m)
}

impl Telegram {
    /// Where this session sends its requests.
    pub closed spec fn base_url_spec(&self) -> Seq<char> {
        self.base_url@
    }

    /// The bot token of this session.
    pub closed spec fn token_spec(&self) -> Seq<char> {
        self.token@
    }

    /// A session against the standard remote endpoint.
    pub fn new(token: String) -> (t: Telegram)
        ensures
            t.token_spec() == token@,
            t.base_url_spec() == "https://api.telegram.org/bot"@,
    {
        Telegram { base_url: String::from_str("https://api.telegram.org/bot"), token }
    }

    /// A session against a caller-chosen endpoint.
    pub fn new_with_base_url(token: String, base_url: &'static str) -> (t: Telegram)
        ensures
            t.token_spec() == token@,
            t.base_url_spec() == base_url@,
    {
        Telegram { base_url: String::from_str(base_url), token }
    }

    /// The URL one operation is addressed at.
    pub fn request_url(&self, method: &Method) -> (r: String)
        ensures
            r@ == request_url_spec(self.base_url_spec(), self.token_spec(), *method),
    {
        let mut out: Vec<char> = Vec::new();
        push_str_chars(&mut out, self.base_url.as_str());
        push_str_chars(&mut out, self.token.as_str());
        out.push('/');
        push_str_chars(&mut out, method.wire_name());
        proof {
            assert(out@ =~= request_url_spec(self.base_url_spec(), self.token_spec(), *method));
        }
        chars_to_string(&out)
    }

    /// The URL of a multipart call: the operation's URL followed by the
    /// JSON-encoded query pairs carrying the non-file parameters.
    pub fn multipart_url(&self, method: &Method, query: &Vec<(String, String)>) -> (r: String)
        ensures
            r@ == request_url_spec(self.base_url_spec(), self.token_spec(), *method)
                + render_query_spec(query_view(query@)),
    {
        let mut out: Vec<char> = Vec::new();
        push_str_chars(&mut out, self.base_url.as_str());
        push_str_chars(&mut out, self.token.as_str());
        out.push('/');
        push_str_chars(&mut out, method.wire_name());
        let mut q = render_query(query);
        out.append(&mut q);
        proof {
            assert(out@ =~= request_url_spec(self.base_url_spec(), self.token_spec(), *method)
                + render_query_spec(query_view(query@)));
        }
        chars_to_string(&out)
    }

    /// One plain dispatch: sends the serialized parameter object as a JSON
    /// body and hands back the raw response body. Every failure before a
    /// response is obtained is a transport error.
    fn call_raw(&self, method: Method, body: &[u8]) -> (r: Result<Vec<u8>, TgError>)
        ensures
            r matches Err(e) ==> e is Transport,
    {
        let url = self.request_url(&method);
        match http_send(url.as_str(), "application/json", body) {
            Ok(p) => Ok(p.1),
            Err(m) => Err(TgError::Transport(m)),
        }
    }

    /// Dispatches one operation with the given JSON body and unwraps the
    /// response envelope into its raw `result` value. Every outcome is the
    /// result value or a classified error: transport when no response was
    /// obtained, protocol when the envelope reported failure.
    pub fn request(&self, method: Method, body: &[u8]) -> (r: Result<serde_json::Value, TgError>)
        ensures
            r matches Err(e) ==> e is Transport || e is Protocol,
    {
        match self.call_raw(method, body) {
            Ok(bytes) => response_result(bytes.as_slice()),
            Err(e) => Err(e),
        }
    }

    /// Dispatches one multipart operation: the non-file parameters travel
    /// as JSON-encoded URL query pairs in the given order, the binary
    /// payload as the request body. The envelope is unwrapped as in
    /// [`Telegram::request`].
    pub fn request_with_attach(
        &self,
        method: Method,
        query: &Vec<(String, String)>,
        body: &[u8],
    ) -> (r: Result<serde_json::Value, TgError>)
        ensures
            r matches Err(e) ==> e is Transport || e is Protocol,
    {
        let url = self.multipart_url(&method, query);
        match http_send(url.as_str(), "multipart/form-data", body) {
            Ok(p) => response_result(p.1.as_slice()),
            Err(m) => Err(TgError::Transport(m)),
        }
    }
}

/// Repeating a file-sending call on the same file value takes the same
/// branch every time: each call is refused with the unsupported-capability
/// error exactly when the value is the raw-bytes variant, a pure function
/// of the value, so two calls' refusal outcomes always agree.
pub proof fn lemma_send_branch_stable(f: InputFile, first_refused: bool, second_refused: bool)
    requires
        first_refused == needs_upload_spec(f),
        second_refused == needs_upload_spec(f),
    ensures
        first_refused == second_refused,
{
}

/// The flag object a permissions parameter is rendered as, member order
/// fixed.
pub open spec fn permissions_param(p: ChatPermissions) -> ParamSpec {
    ParamSpec::BoolPairs(
        seq![
            ("can_send_messages"@, p.can_send_messages),
            ("can_send_media_messages"@, p.can_send_media_messages),
            ("can_send_polls"@, p.can_send_polls),
            ("can_send_other_messages"@, p.can_send_other_messages),
            ("can_add_web_page_previews"@, p.can_add_web_page_previews),
            ("can_change_info"@, p.can_change_info),
            ("can_invite_users"@, p.can_invite_users),
            ("can_pin_messages"@, p.can_pin_messages),
        ],
    )
}

/// The request body of a plain text message: the chat identifier and the
/// text, in that order.
pub fn send_message_body(chat_id: ChatId, text: &str) -> (r: String)
    ensures
        r@ == render_body_spec(
            seq![("chat_id"@, ParamSpec::Int(chat_id.0 as int)), ("text"@, ParamSpec::Str(text@))],
        ),
{
    body_chat_str(chat_id, "text", text)
}

/// The permissions parameter as an executable value.
fn permissions_value(p: &ChatPermissions) -> (r: ParamValue)
    ensures
        r@ == permissions_param(*p),
{
    let mut v: Vec<(String, bool)> = Vec::new();
    v.push((String::from_str("can_send_messages"), p.can_send_messages));
    v.push((String::from_str("can_send_media_messages"), p.can_send_media_messages));
    v.push((String::from_str("can_send_polls"), p.can_send_polls));
    v.push((String::from_str("can_send_other_messages"), p.can_send_other_messages));
    v.push((String::from_str("can_add_web_page_previews"), p.can_add_web_page_previews));
    v.push((String::from_str("can_change_info"), p.can_change_info));
    v.push((String::from_str("can_invite_users"), p.can_invite_users));
    v.push((String::from_str("can_pin_messages"), p.can_pin_messages));
    let r = ParamValue::BoolPairs(v);
    proof {
        let m = v@.map_values(|kv: (String, bool)| (kv.0@, kv.1));
        assert(m[0] == ("can_send_messages"@, p.can_send_messages));
        assert(m[1] == ("can_send_media_messages"@, p.can_send_media_messages));
        assert(m[2] == ("can_send_polls"@, p.can_send_polls));
        assert(m[3] == ("can_send_other_messages"@, p.can_send_other_messages));
        assert(m[4] == ("can_add_web_page_previews"@, p.can_add_web_page_previews));
        assert(m[5] == ("can_change_info"@, p.can_change_info));
        assert(m[6] == ("can_invite_users"@, p.can_invite_users));
        assert(m[7] == ("can_pin_messages"@, p.can_pin_messages));
        assert(m =~= seq![
            ("can_send_messages"@, p.can_send_messages),
            ("can_send_media_messages"@, p.can_send_media_messages),
            ("can_send_polls"@, p.can_send_polls),
            ("can_send_other_messages"@, p.can_send_other_messages),
            ("can_add_web_page_previews"@, p.can_add_web_page_previews),
            ("can_change_info"@, p.can_change_info),
            ("can_invite_users"@, p.can_invite_users),
            ("can_pin_messages"@, p.can_pin_messages),
        ]);
        assert(r@ == permissions_param(*p));
    }
    r
}

/// A request body holding the chat identifier alone.
pub fn body_chat(chat_id: ChatId) -> (r: String)
    ensures
        r@ == render_body_spec(seq![("chat_id"@, ParamSpec::Int(chat_id.0 as int))]),
{
    let mut params: Vec<(String, ParamValue)> = Vec::new();
    params.push((String::from_str("chat_id"), ParamValue::I64(chat_id.0)));
    proof {
        assert(params_view(params@) =~~= seq![("chat_id"@, ParamSpec::Int(chat_id.0 as int))]);
    }
    render_body_string(&params)
}

/// A request body holding the chat identifier and one string parameter under the given key.
pub fn body_chat_str(chat_id: ChatId, key: &str, value: &str) -> (r: String)
    ensures
        r@ == render_body_spec(seq![("chat_id"@, ParamSpec::Int(chat_id.0 as int)), (key@, ParamSpec::Str(value@))]),
{
    let mut params: Vec<(String, ParamValue)> = Vec::new();
    params.push((String::from_str("chat_id"), ParamValue::I64(chat_id.0)));
    params.push((String::from_str(key), ParamValue::Str(String::from_str(value))));
    proof {
        assert(params_view(params@) =~~= seq![("chat_id"@, ParamSpec::Int(chat_id.0 as int)), (key@, ParamSpec::Str(value@))]);
    }
    render_body_string(&params)
}

/// A request body holding the chat and user identifiers.
pub fn body_chat_user(chat_id: ChatId, user_id: UserId) -> (r: String)
    ensures
        r@ == render_body_spec(seq![("chat_id"@, ParamSpec::Int(chat_id.0 as int)), ("user_id"@, ParamSpec::Int(user_id.0 as int))]),
{
    let mut params: Vec<(String, ParamValue)> = Vec::new();
    params.push((String::from_str("chat_id"), ParamValue::I64(chat_id.0)));
    params.push((String::from_str("user_id"), ParamValue::U64(user_id.0)));
    proof {
        assert(params_view(params@) =~~= seq![("chat_id"@, ParamSpec::Int(chat_id.0 as int)), ("user_id"@, ParamSpec::Int(user_id.0 as int))]);
    }
    render_body_string(&params)
}

/// A request body holding the destination and source chat identifiers.
pub fn body_chat_from_chat(chat_id: ChatId, from_chat_id: ChatId) -> (r: String)
    ensures
        r@ == render_body_spec(seq![("chat_id"@, ParamSpec::Int(chat_id.0 as int)), ("from_chat_id"@, ParamSpec::Int(from_chat_id.0 as int))]),
{
    let mut params: Vec<(String, ParamValue)> = Vec::new();
    params.push((String::from_str("chat_id"), ParamValue::I64(chat_id.0)));
    params.push((String::from_str("from_chat_id"), ParamValue::I64(from_chat_id.0)));
    proof {
        assert(params_view(params@) =~~= seq![("chat_id"@, ParamSpec::Int(chat_id.0 as int)), ("from_chat_id"@, ParamSpec::Int(from_chat_id.0 as int))]);
    }
    render_body_string(&params)
}

/// A request body naming the destination chat, the source chat, and the message to copy.
pub fn body_copy_message(chat_id: ChatId, from_chat_id: ChatId, message_id: MessageId) -> (r: String)
    ensures
        r@ == render_body_spec(seq![("chat_id"@, ParamSpec::Int(chat_id.0 as int)), ("from_chat_id"@, ParamSpec::Int(from_chat_id.0 as int)), ("message_id"@, ParamSpec::Int(message_id.0 as int))]),
{
    let mut params: Vec<(String, ParamValue)> = Vec::new();
    params.push((String::from_str("chat_id"), ParamValue::I64(chat_id.0)));
    params.push((String::from_str("from_chat_id"), ParamValue::I64(from_chat_id.0)));
    params.push((String::from_str("message_id"), ParamValue::I64(message_id.0 as i64)));
    proof {
        assert(params_view(params@) =~~= seq![("chat_id"@, ParamSpec::Int(chat_id.0 as int)), ("from_chat_id"@, ParamSpec::Int(from_chat_id.0 as int)), ("message_id"@, ParamSpec::Int(message_id.0 as int))]);
    }
    render_body_string(&params)
}

/// A request body holding the chat identifier and one integer parameter under the given key.
pub fn body_chat_i64(chat_id: ChatId, key: &str, value: i64) -> (r: String)
    ensures
        r@ == render_body_spec(seq![("chat_id"@, ParamSpec::Int(chat_id.0 as int)), (key@, ParamSpec::Int(value as int))]),
{
    let mut params: Vec<(String, ParamValue)> = Vec::new();
    params.push((String::from_str("chat_id"), ParamValue::I64(chat_id.0)));
    params.push((String::from_str(key), ParamValue::I64(value)));
    proof {
        assert(params_view(params@) =~~= seq![("chat_id"@, ParamSpec::Int(chat_id.0 as int)), (key@, ParamSpec::Int(value as int))]);
    }
    render_body_string(&params)
}

/// A request body holding the chat and user identifiers and one string parameter under the given key.
pub fn body_chat_user_str(chat_id: ChatId, user_id: UserId, key: &str, value: &str) -> (r: String)
    ensures
        r@ == render_body_spec(seq![("chat_id"@, ParamSpec::Int(chat_id.0 as int)), ("user_id"@, ParamSpec::Int(user_id.0 as int)), (key@, ParamSpec::Str(value@))]),
{
    let mut params: Vec<(String, ParamValue)> = Vec::new();
    params.push((String::from_str("chat_id"), ParamValue::I64(chat_id.0)));
    params.push((String::from_str("user_id"), ParamValue::U64(user_id.0)));
    params.push((String::from_str(key), ParamValue::Str(String::from_str(value))));
    proof {
        assert(params_view(params@) =~~= seq![("chat_id"@, ParamSpec::Int(chat_id.0 as int)), ("user_id"@, ParamSpec::Int(user_id.0 as int)), (key@, ParamSpec::Str(value@))]);
    }
    render_body_string(&params)
}

/// A request body holding the chat and user identifiers and a permissions object.
pub fn body_chat_user_permissions(chat_id: ChatId, user_id: UserId, permissions: &ChatPermissions) -> (r: String)
    ensures
        r@ == render_body_spec(seq![("chat_id"@, ParamSpec::Int(chat_id.0 as int)), ("user_id"@, ParamSpec::Int(user_id.0 as int)), ("permissions"@, permissions_param(*permissions))]),
{
    let mut params: Vec<(String, ParamValue)> = Vec::new();
    params.push((String::from_str("chat_id"), ParamValue::I64(chat_id.0)));
    params.push((String::from_str("user_id"), ParamValue::U64(user_id.0)));
    params.push((String::from_str("permissions"), permissions_value(permissions)));
    proof {
        assert(params_view(params@) =~~= seq![("chat_id"@, ParamSpec::Int(chat_id.0 as int)), ("user_id"@, ParamSpec::Int(user_id.0 as int)), ("permissions"@, permissions_param(*permissions))]);
    }
    render_body_string(&params)
}

/// A request body holding the chat identifier and a permissions object.
pub fn body_chat_permissions(chat_id: ChatId, permissions: &ChatPermissions) -> (r: String)
    ensures
        r@ == render_body_spec(seq![("chat_id"@, ParamSpec::Int(chat_id.0 as int)), ("permissions"@, permissions_param(*permissions))]),
{
    let mut params: Vec<(String, ParamValue)> = Vec::new();
    params.push((String::from_str("chat_id"), ParamValue::I64(chat_id.0)));
    params.push((String::from_str("permissions"), permissions_value(permissions)));
    proof {
        assert(params_view(params@) =~~= seq![("chat_id"@, ParamSpec::Int(chat_id.0 as int)), ("permissions"@, permissions_param(*permissions))]);
    }
    render_body_string(&params)
}

/// A request body naming a contact's phone number and first name.
pub fn body_send_contract(chat_id: ChatId, photo_number: &str, first_name: &str) -> (r: String)
    ensures
        r@ == render_body_spec(seq![("chat_id"@, ParamSpec::Int(chat_id.0 as int)), ("photo_number"@, ParamSpec::Str(photo_number@)), ("first_name"@, ParamSpec::Str(first_name@))]),
{
    let mut params: Vec<(String, ParamValue)> = Vec::new();
    params.push((String::from_str("chat_id"), ParamValue::I64(chat_id.0)));
    params.push((String::from_str("photo_number"), ParamValue::Str(String::from_str(photo_number))));
    params.push((String::from_str("first_name"), ParamValue::Str(String::from_str(first_name))));
    proof {
        assert(params_view(params@) =~~= seq![("chat_id"@, ParamSpec::Int(chat_id.0 as int)), ("photo_number"@, ParamSpec::Str(photo_number@)), ("first_name"@, ParamSpec::Str(first_name@))]);
    }
    render_body_string(&params)
}

/// A request body holding a poll question and its answer options in order.
pub fn body_send_poll(chat_id: ChatId, question: &str, options: &Vec<String>) -> (r: String)
    ensures
        r@ == render_body_spec(seq![("chat_id"@, ParamSpec::Int(chat_id.0 as int)), ("question"@, ParamSpec::Str(question@)), ("options"@, ParamSpec::StrList(options@.map_values(|s: String| s@)))]),
{
    let mut params: Vec<(String, ParamValue)> = Vec::new();
    params.push((String::from_str("chat_id"), ParamValue::I64(chat_id.0)));
    params.push((String::from_str("question"), ParamValue::Str(String::from_str(question))));
    params.push((String::from_str("options"), ParamValue::StrList(options.clone())));
    proof {
        assert(params_view(params@) =~~= seq![("chat_id"@, ParamSpec::Int(chat_id.0 as int)), ("question"@, ParamSpec::Str(question@)), ("options"@, ParamSpec::StrList(options@.map_values(|s: String| s@)))]);
    }
    render_body_string(&params)
}

/// A request body naming the chat, the message to edit, and its new text.
pub fn body_edit_message_text(chat_id: ChatId, message_id: MessageId, text: &str) -> (r: String)
    ensures
        r@ == render_body_spec(seq![("chat_id"@, ParamSpec::Int(chat_id.0 as int)), ("message_id"@, ParamSpec::Int(message_id.0 as int)), ("text"@, ParamSpec::Str(text@))]),
{
    let mut params: Vec<(String, ParamValue)> = Vec::new();
    params.push((String::from_str("chat_id"), ParamValue::I64(chat_id.0)));
    params.push((String::from_str("message_id"), ParamValue::I64(message_id.0 as i64)));
    params.push((String::from_str("text"), ParamValue::Str(String::from_str(text))));
    proof {
        assert(params_view(params@) =~~= seq![("chat_id"@, ParamSpec::Int(chat_id.0 as int)), ("message_id"@, ParamSpec::Int(message_id.0 as int)), ("text"@, ParamSpec::Str(text@))]);
    }
    render_body_string(&params)
}

/// A request body holding the user identifier alone.
pub fn body_user(user_id: UserId) -> (r: String)
    ensures
        r@ == render_body_spec(seq![("user_id"@, ParamSpec::Int(user_id.0 as int))]),
{
    let mut params: Vec<(String, ParamValue)> = Vec::new();
    params.push((String::from_str("user_id"), ParamValue::U64(user_id.0)));
    proof {
        assert(params_view(params@) =~~= seq![("user_id"@, ParamSpec::Int(user_id.0 as int))]);
    }
    render_body_string(&params)
}

/// A request body holding a file identifier alone.
pub fn body_file_id(file_id: &str) -> (r: String)
    ensures
        r@ == render_body_spec(seq![("file_id"@, ParamSpec::Str(file_id@))]),
{
    let mut params: Vec<(String, ParamValue)> = Vec::new();
    params.push((String::from_str("file_id"), ParamValue::Str(String::from_str(file_id))));
    proof {
        assert(params_view(params@) =~~= seq![("file_id"@, ParamSpec::Str(file_id@))]);
    }
    render_body_string(&params)
}

impl Telegram {
    /// Asks the remote side for the bot's own account.
    pub fn get_me(&self) -> (r: Result<Me, TgError>)
        ensures
            r matches Err(e) ==> e is Transport || e is Protocol || e is Schema,
    {
        let body: Vec<u8> = Vec::new();
        match self.call_raw(Method::GetMe, body.as_slice()) {
            Ok(bytes) => me_from_response(bytes.as_slice()),
            Err(e) => Err(e),
        }
    }

    /// Logs the bot out of the remote side.
    pub fn log_out(&self) -> (r: Result<True, TgError>)
        ensures
            r matches Err(e) ==> e is Transport || e is Protocol || e is Schema,
    {
        let body: Vec<u8> = Vec::new();
        match self.call_raw(Method::LogOut, body.as_slice()) {
            Ok(bytes) => true_from_response(bytes.as_slice()),
            Err(e) => Err(e),
        }
    }

    /// Closes the bot's remote session.
    pub fn close(&self) -> (r: Result<True, TgError>)
        ensures
            r matches Err(e) ==> e is Transport || e is Protocol || e is Schema,
    {
        let body: Vec<u8> = Vec::new();
        match self.call_raw(Method::Close, body.as_slice()) {
            Ok(bytes) => true_from_response(bytes.as_slice()),
            Err(e) => Err(e),
        }
    }

    /// Sends a plain text message to a chat.
    pub fn send_message(&self, chat_id: ChatId, text: &str) -> (r: Result<Message, TgError>)
        ensures
            r matches Err(e) ==> e is Transport || e is Protocol || e is Schema,
    {
        let body = send_message_body(chat_id, text);
        match self.call_raw(Method::SendMessage, body.as_str().as_bytes()) {
            Ok(bytes) => message_from_response(bytes.as_slice()),
            Err(e) => Err(e),
        }
    }

    /// Forwards a message between chats.
    pub fn forward_message(&self, chat_id: ChatId, from_chat_id: ChatId) -> (r: Result<Message, TgError>)
        ensures
            r matches Err(e) ==> e is Transport || e is Protocol || e is Schema,
    {
        let body = body_chat_from_chat(chat_id, from_chat_id);
        match self.call_raw(Method::ForwardMessage, body.as_str().as_bytes()) {
            Ok(bytes) => message_from_response(bytes.as_slice()),
            Err(e) => Err(e),
        }
    }

    /// Copies a message between chats.
    pub fn copy_message(&self, chat_id: ChatId, from_chat_id: ChatId, message_id: MessageId) -> (r: Result<Message, TgError>)
        ensures
            r matches Err(e) ==> e is Transport || e is Protocol || e is Schema,
    {
        let body = body_copy_message(chat_id, from_chat_id, message_id);
        match self.call_raw(Method::CopyMessage, body.as_str().as_bytes()) {
            Ok(bytes) => message_from_response(bytes.as_slice()),
            Err(e) => Err(e),
        }
    }

    /// Sends a file reference as the `photo` of a chat message. Raw-bytes input requires a multipart upload, which this plain
    /// call path cannot carry: such a call is refused outright, nothing is
    /// sent, and no other input is ever refused for that reason.
    pub fn send_photo(&self, chat_id: ChatId, photo: InputFile) -> (r: Result<Message, TgError>)
        ensures
            needs_upload_spec(photo) ==> (r matches Err(e) && e is UnsupportedCapability),
            (r matches Err(e) && e is UnsupportedCapability) ==> needs_upload_spec(photo),
            r matches Err(e) ==> e is Transport || e is Protocol || e is Schema
                || e is UnsupportedCapability,
    {
        let value: String = match photo {
            InputFile::Url(s) => s,
            InputFile::FileId(s) => s,
            InputFile::Memory(_) => return Err(TgError::UnsupportedCapability),
        };
        let body = body_chat_str(chat_id, "photo", value.as_str());
        match self.call_raw(Method::SendPhoto, body.as_str().as_bytes()) {
            Ok(bytes) => message_from_response(bytes.as_slice()),
            Err(e) => Err(e),
        }
    }

    /// Sends a file reference as the `audio` of a chat message. Raw-bytes input requires a multipart upload, which this plain
    /// call path cannot carry: such a call is refused outright, nothing is
    /// sent, and no other input is ever refused for that reason.
    pub fn send_audio(&self, chat_id: ChatId, audio: InputFile) -> (r: Result<Message, TgError>)
        ensures
            needs_upload_spec(audio) ==> (r matches Err(e) && e is UnsupportedCapability),
            (r matches Err(e) && e is UnsupportedCapability) ==> needs_upload_spec(audio),
            r matches Err(e) ==> e is Transport || e is Protocol || e is Schema
                || e is UnsupportedCapability,
    {
        let value: String = match audio {
            InputFile::Url(s) => s,
            InputFile::FileId(s) => s,
            InputFile::Memory(_) => return Err(TgError::UnsupportedCapability),
        };
        let body = body_chat_str(chat_id, "audio", value.as_str());
        match self.call_raw(Method::SendAudio, body.as_str().as_bytes()) {
            Ok(bytes) => message_from_response(bytes.as_slice()),
            Err(e) => Err(e),
        }
    }

    /// Sends a file reference as the `document` of a chat message. Raw-bytes input requires a multipart upload, which this plain
    /// call path cannot carry: such a call is refused outright, nothing is
    /// sent, and no other input is ever refused for that reason.
    pub fn send_document(&self, chat_id: ChatId, document: InputFile) -> (r: Result<Message, TgError>)
        ensures
            needs_upload_spec(document) ==> (r matches Err(e) && e is UnsupportedCapability),
            (r matches Err(e) && e is UnsupportedCapability) ==> needs_upload_spec(document),
            r matches Err(e) ==> e is Transport || e is Protocol || e is Schema
                || e is UnsupportedCapability,
    {
        let value: String = match document {
            InputFile::Url(s) => s,
            InputFile::FileId(s) => s,
            InputFile::Memory(_) => return Err(TgError::UnsupportedCapability),
        };
        let body = body_chat_str(chat_id, "document", value.as_str());
        match self.call_raw(Method::SendDocument, body.as_str().as_bytes()) {
            Ok(bytes) => message_from_response(bytes.as_slice()),
            Err(e) => Err(e),
        }
    }

    /// Sends a file reference as the `video` of a chat message. Raw-bytes input requires a multipart upload, which this plain
    /// call path cannot carry: such a call is refused outright, nothing is
    /// sent, and no other input is ever refused for that reason.
    pub fn send_video(&self, chat_id: ChatId, video: InputFile) -> (r: Result<Message, TgError>)
        ensures
            needs_upload_spec(video) ==> (r matches Err(e) && e is UnsupportedCapability),
            (r matches Err(e) && e is UnsupportedCapability) ==> needs_upload_spec(video),
            r matches Err(e) ==> e is Transport || e is Protocol || e is Schema
                || e is UnsupportedCapability,
    {
        let value: String = match video {
            InputFile::Url(s) => s,
            InputFile::FileId(s) => s,
            InputFile::Memory(_) => return Err(TgError::UnsupportedCapability),
        };
        let body = body_chat_str(chat_id, "video", value.as_str());
        match self.call_raw(Method::SendVideo, body.as_str().as_bytes()) {
            Ok(bytes) => message_from_response(bytes.as_slice()),
            Err(e) => Err(e),
        }
    }

    /// Sends a file reference as the `animation` of a chat message. Raw-bytes input requires a multipart upload, which this plain
    /// call path cannot carry: such a call is refused outright, nothing is
    /// sent, and no other input is ever refused for that reason.
    pub fn send_animation(&self, chat_id: ChatId, animation: InputFile) -> (r: Result<Message, TgError>)
        ensures
            needs_upload_spec(animation) ==> (r matches Err(e) && e is UnsupportedCapability),
            (r matches Err(e) && e is UnsupportedCapability) ==> needs_upload_spec(animation),
            r matches Err(e) ==> e is Transport || e is Protocol || e is Schema
                || e is UnsupportedCapability,
    {
        let value: String = match animation {
            InputFile::Url(s) => s,
            InputFile::FileId(s) => s,
            InputFile::Memory(_) => return Err(TgError::UnsupportedCapability),
        };
        let body = body_chat_str(chat_id, "animation", value.as_str());
        match self.call_raw(Method::SendAnimation, body.as_str().as_bytes()) {
            Ok(bytes) => message_from_response(bytes.as_slice()),
            Err(e) => Err(e),
        }
    }

    /// Sends a file reference as the `voice` of a chat message. Raw-bytes input requires a multipart upload, which this plain
    /// call path cannot carry: such a call is refused outright, nothing is
    /// sent, and no other input is ever refused for that reason.
    pub fn send_voice(&self, chat_id: ChatId, voice: InputFile) -> (r: Result<Message, TgError>)
        ensures
            needs_upload_spec(voice) ==> (r matches Err(e) && e is UnsupportedCapability),
            (r matches Err(e) && e is UnsupportedCapability) ==> needs_upload_spec(voice),
            r matches Err(e) ==> e is Transport || e is Protocol || e is Schema
                || e is UnsupportedCapability,
    {
        let value: String = match voice {
            InputFile::Url(s) => s,
            InputFile::FileId(s) => s,
            InputFile::Memory(_) => return Err(TgError::UnsupportedCapability),
        };
        let body = body_chat_str(chat_id, "voice", value.as_str());
        match self.call_raw(Method::SendVoice, body.as_str().as_bytes()) {
            Ok(bytes) => message_from_response(bytes.as_slice()),
            Err(e) => Err(e),
        }
    }

    /// Sends a file reference as the `video_note` of a chat message. Raw-bytes input requires a multipart upload, which this plain
    /// call path cannot carry: such a call is refused outright, nothing is
    /// sent, and no other input is ever refused for that reason.
    pub fn send_video_note(&self, chat_id: ChatId, video_note: InputFile) -> (r: Result<Message, TgError>)
        ensures
            needs_upload_spec(video_note) ==> (r matches Err(e) && e is UnsupportedCapability),
            (r matches Err(e) && e is UnsupportedCapability) ==> needs_upload_spec(video_note),
            r matches Err(e) ==> e is Transport || e is Protocol || e is Schema
                || e is UnsupportedCapability,
    {
        let value: String = match video_note {
            InputFile::Url(s) => s,
            InputFile::FileId(s) => s,
            InputFile::Memory(_) => return Err(TgError::UnsupportedCapability),
        };
        let body = body_chat_str(chat_id, "video_note", value.as_str());
        match self.call_raw(Method::SendVideoNote, body.as_str().as_bytes()) {
            Ok(bytes) => message_from_response(bytes.as_slice()),
            Err(e) => Err(e),
        }
    }

    /// Sends a contact card to a chat.
    pub fn send_contract(&self, chat_id: ChatId, photo_number: &str, first_name: &str) -> (r: Result<Message, TgError>)
        ensures
            r matches Err(e) ==> e is Transport || e is Protocol || e is Schema,
    {
        let body = body_send_contract(chat_id, photo_number, first_name);
        match self.call_raw(Method::SendContract, body.as_str().as_bytes()) {
            Ok(bytes) => message_from_response(bytes.as_slice()),
            Err(e) => Err(e),
        }
    }

    /// Sends a poll with the given answer options to a chat.
    pub fn send_poll(&self, chat_id: ChatId, question: &str, options: &Vec<String>) -> (r: Result<Message, TgError>)
        ensures
            r matches Err(e) ==> e is Transport || e is Protocol || e is Schema,
    {
        let body = body_send_poll(chat_id, question, options);
        match self.call_raw(Method::SendPoll, body.as_str().as_bytes()) {
            Ok(bytes) => message_from_response(bytes.as_slice()),
            Err(e) => Err(e),
        }
    }

    /// Sends a die roll to a chat.
    pub fn send_dice(&self, chat_id: ChatId) -> (r: Result<Message, TgError>)
        ensures
            r matches Err(e) ==> e is Transport || e is Protocol || e is Schema,
    {
        let body = body_chat(chat_id);
        match self.call_raw(Method::SendDice, body.as_str().as_bytes()) {
            Ok(bytes) => message_from_response(bytes.as_slice()),
            Err(e) => Err(e),
        }
    }

    /// Reports a chat action, such as typing, to a chat.
    pub fn send_chat_action(&self, chat_id: ChatId, action: &str) -> (r: Result<Message, TgError>)
        ensures
            r matches Err(e) ==> e is Transport || e is Protocol || e is Schema,
    {
        let body = body_chat_str(chat_id, "action", action);
        match self.call_raw(Method::SendChatAction, body.as_str().as_bytes()) {
            Ok(bytes) => message_from_response(bytes.as_slice()),
            Err(e) => Err(e),
        }
    }

    /// Asks how many profile photos a user has.
    pub fn get_user_profile_photos_total(&self, user_id: UserId) -> (r: Result<i64, TgError>)
        ensures
            r matches Err(e) ==> e is Transport || e is Protocol || e is Schema,
    {
        let body = body_user(user_id);
        match self.call_raw(Method::GetUserProfilePhotos, body.as_str().as_bytes()) {
            Ok(bytes) => photos_total_from_response(bytes.as_slice()),
            Err(e) => Err(e),
        }
    }

    /// Asks the remote side for a file it holds.
    pub fn get_file(&self, file_id: &str) -> (r: Result<File, TgError>)
        ensures
            r matches Err(e) ==> e is Transport || e is Protocol || e is Schema,
    {
        let body = body_file_id(file_id);
        match self.call_raw(Method::GetFile, body.as_str().as_bytes()) {
            Ok(bytes) => file_from_response(bytes.as_slice()),
            Err(e) => Err(e),
        }
    }

    /// Bans a user from a chat.
    pub fn ban_chat_member(&self, chat_id: ChatId, user_id: UserId) -> (r: Result<True, TgError>)
        ensures
            r matches Err(e) ==> e is Transport || e is Protocol || e is Schema,
    {
        let body = body_chat_user(chat_id, user_id);
        match self.call_raw(Method::BanChatMember, body.as_str().as_bytes()) {
            Ok(bytes) => true_from_response(bytes.as_slice()),
            Err(e) => Err(e),
        }
    }

    /// Lifts a user's ban from a chat.
    pub fn unban_chat_member(&self, chat_id: ChatId, user_id: UserId) -> (r: Result<True, TgError>)
        ensures
            r matches Err(e) ==> e is Transport || e is Protocol || e is Schema,
    {
        let body = body_chat_user(chat_id, user_id);
        match self.call_raw(Method::UnbanChatMember, body.as_str().as_bytes()) {
            Ok(bytes) => true_from_response(bytes.as_slice()),
            Err(e) => Err(e),
        }
    }

    /// Restricts what a member of a chat is allowed to do.
    pub fn restrict_chat_member(&self, chat_id: ChatId, user_id: UserId, permissions: &ChatPermissions) -> (r: Result<True, TgError>)
        ensures
            r matches Err(e) ==> e is Transport || e is Protocol || e is Schema,
    {
        let body = body_chat_user_permissions(chat_id, user_id, permissions);
        match self.call_raw(Method::RestrictChatMember, body.as_str().as_bytes()) {
            Ok(bytes) => true_from_response(bytes.as_slice()),
            Err(e) => Err(e),
        }
    }

    /// Promotes a member of a chat.
    pub fn promote_chat_member(&self, chat_id: ChatId, user_id: UserId) -> (r: Result<True, TgError>)
        ensures
            r matches Err(e) ==> e is Transport || e is Protocol || e is Schema,
    {
        let body = body_chat_user(chat_id, user_id);
        match self.call_raw(Method::PromoteChatMember, body.as_str().as_bytes()) {
            Ok(bytes) => true_from_response(bytes.as_slice()),
            Err(e) => Err(e),
        }
    }

    /// Gives an administrator of a chat a custom title.
    pub fn set_chat_administrator_custom_title(&self, chat_id: ChatId, user_id: UserId, custom_title: &str) -> (r: Result<True, TgError>)
        ensures
            r matches Err(e) ==> e is Transport || e is Protocol || e is Schema,
    {
        let body = body_chat_user_str(chat_id, user_id, "custom_title", custom_title);
        match self.call_raw(Method::SetChatAdministratorCustomTitle, body.as_str().as_bytes()) {
            Ok(bytes) => true_from_response(bytes.as_slice()),
            Err(e) => Err(e),
        }
    }

    /// Bans a sender chat from a chat.
    pub fn ban_chat_sender_chat(&self, chat_id: ChatId, sender_chat_id: i32) -> (r: Result<True, TgError>)
        ensures
            r matches Err(e) ==> e is Transport || e is Protocol || e is Schema,
    {
        let body = body_chat_i64(chat_id, "sender_chat_id", sender_chat_id as i64);
        match self.call_raw(Method::BanChatSenderChat, body.as_str().as_bytes()) {
            Ok(bytes) => true_from_response(bytes.as_slice()),
            Err(e) => Err(e),
        }
    }

    /// Lifts a sender chat's ban from a chat.
    pub fn unban_chat_sender_chat(&self, chat_id: ChatId, sender_chat_id: i32) -> (r: Result<True, TgError>)
        ensures
            r matches Err(e) ==> e is Transport || e is Protocol || e is Schema,
    {
        let body = body_chat_i64(chat_id, "sender_chat_id", sender_chat_id as i64);
        match self.call_raw(Method::UnbanChatSenderChat, body.as_str().as_bytes()) {
            Ok(bytes) => true_from_response(bytes.as_slice()),
            Err(e) => Err(e),
        }
    }

    /// Sets the default permissions of a chat.
    pub fn set_chat_permissions(&self, chat_id: ChatId, permissions: &ChatPermissions) -> (r: Result<True, TgError>)
        ensures
            r matches Err(e) ==> e is Transport || e is Protocol || e is Schema,
    {
        let body = body_chat_permissions(chat_id, permissions);
        match self.call_raw(Method::SetChatPermissions, body.as_str().as_bytes()) {
            Ok(bytes) => true_from_response(bytes.as_slice()),
            Err(e) => Err(e),
        }
    }

    /// Exports a chat's primary invite link.
    pub fn export_chat_invite_link(&self, chat_id: ChatId) -> (r: Result<String, TgError>)
        ensures
            r matches Err(e) ==> e is Transport || e is Protocol || e is Schema,
    {
        let body = body_chat(chat_id);
        match self.call_raw(Method::ExportChatInviteLink, body.as_str().as_bytes()) {
            Ok(bytes) => string_from_response(bytes.as_slice()),
            Err(e) => Err(e),
        }
    }

    /// Creates a new invite link for a chat.
    pub fn create_chat_invite_link(&self, chat_id: ChatId) -> (r: Result<ChatInviteLink, TgError>)
        ensures
            r matches Err(e) ==> e is Transport || e is Protocol || e is Schema,
    {
        let body = body_chat(chat_id);
        match self.call_raw(Method::CreateChatInviteLink, body.as_str().as_bytes()) {
            Ok(bytes) => invite_link_from_response(bytes.as_slice()),
            Err(e) => Err(e),
        }
    }

    /// Edits an invite link of a chat.
    pub fn edit_chat_invite_link(&self, chat_id: ChatId, invite_link: &str) -> (r: Result<ChatInviteLink, TgError>)
        ensures
            r matches Err(e) ==> e is Transport || e is Protocol || e is Schema,
    {
        let body = body_chat_str(chat_id, "invite_link", invite_link);
        match self.call_raw(Method::EditChatInviteLink, body.as_str().as_bytes()) {
            Ok(bytes) => invite_link_from_response(bytes.as_slice()),
            Err(e) => Err(e),
        }
    }

    /// Revokes an invite link of a chat.
    pub fn revoke_chat_invite_link(&self, chat_id: ChatId, invite_link: &str) -> (r: Result<ChatInviteLink, TgError>)
        ensures
            r matches Err(e) ==> e is Transport || e is Protocol || e is Schema,
    {
        let body = body_chat_str(chat_id, "invite_link", invite_link);
        match self.call_raw(Method::RevokeChatInviteLink, body.as_str().as_bytes()) {
            Ok(bytes) => invite_link_from_response(bytes.as_slice()),
            Err(e) => Err(e),
        }
    }

    /// Approves a user's request to join a chat.
    pub fn approve_chat_join_request(&self, chat_id: ChatId, user_id: UserId) -> (r: Result<True, TgError>)
        ensures
            r matches Err(e) ==> e is Transport || e is Protocol || e is Schema,
    {
        let body = body_chat_user(chat_id, user_id);
        match self.call_raw(Method::ApproveChatJoinRequest, body.as_str().as_bytes()) {
            Ok(bytes) => true_from_response(bytes.as_slice()),
            Err(e) => Err(e),
        }
    }

    /// Declines a user's request to join a chat.
    pub fn decline_chat_join_request(&self, chat_id: ChatId, user_id: UserId) -> (r: Result<True, TgError>)
        ensures
            r matches Err(e) ==> e is Transport || e is Protocol || e is Schema,
    {
        let body = body_chat_user(chat_id, user_id);
        match self.call_raw(Method::DeclineChatJoinRequest, body.as_str().as_bytes()) {
            Ok(bytes) => true_from_response(bytes.as_slice()),
            Err(e) => Err(e),
        }
    }

    /// Sets a chat's photo from a file reference. Raw-bytes input requires a multipart upload, which this plain
    /// call path cannot carry: such a call is refused outright, nothing is
    /// sent, and no other input is ever refused for that reason.
    pub fn set_chat_photo(&self, chat_id: ChatId, photo: InputFile) -> (r: Result<True, TgError>)
        ensures
            needs_upload_spec(photo) ==> (r matches Err(e) && e is UnsupportedCapability),
            (r matches Err(e) && e is UnsupportedCapability) ==> needs_upload_spec(photo),
            r matches Err(e) ==> e is Transport || e is Protocol || e is Schema
                || e is UnsupportedCapability,
    {
        let value: String = match photo {
            InputFile::Url(s) => s,
            InputFile::FileId(s) => s,
            InputFile::Memory(_) => return Err(TgError::UnsupportedCapability),
        };
        let body = body_chat_str(chat_id, "photo", value.as_str());
        match self.call_raw(Method::SetChatPhoto, body.as_str().as_bytes()) {
            Ok(bytes) => true_from_response(bytes.as_slice()),
            Err(e) => Err(e),
        }
    }

    /// Deletes a chat's photo.
    pub fn delete_chat_photo(&self, chat_id: ChatId) -> (r: Result<True, TgError>)
        ensures
            r matches Err(e) ==> e is Transport || e is Protocol || e is Schema,
    {
        let body = body_chat(chat_id);
        match self.call_raw(Method::DeleteChatPhoto, body.as_str().as_bytes()) {
            Ok(bytes) => true_from_response(bytes.as_slice()),
            Err(e) => Err(e),
        }
    }

    /// Sets a chat's title.
    pub fn set_chat_title(&self, chat_id: ChatId, title: &str) -> (r: Result<True, TgError>)
        ensures
            r matches Err(e) ==> e is Transport || e is Protocol || e is Schema,
    {
        let body = body_chat_str(chat_id, "title", title);
        match self.call_raw(Method::SetChatTitle, body.as_str().as_bytes()) {
            Ok(bytes) => true_from_response(bytes.as_slice()),
            Err(e) => Err(e),
        }
    }

    /// Clears a chat's description.
    pub fn set_chat_description(&self, chat_id: ChatId) -> (r: Result<True, TgError>)
        ensures
            r matches Err(e) ==> e is Transport || e is Protocol || e is Schema,
    {
        let body = body_chat(chat_id);
        match self.call_raw(Method::SetChatDescription, body.as_str().as_bytes()) {
            Ok(bytes) => true_from_response(bytes.as_slice()),
            Err(e) => Err(e),
        }
    }

    /// Pins a message in a chat.
    pub fn pin_chat_message(&self, chat_id: ChatId, message_id: i32) -> (r: Result<True, TgError>)
        ensures
            r matches Err(e) ==> e is Transport || e is Protocol || e is Schema,
    {
        let body = body_chat_i64(chat_id, "message_id", message_id as i64);
        match self.call_raw(Method::PinChatMessage, body.as_str().as_bytes()) {
            Ok(bytes) => true_from_response(bytes.as_slice()),
            Err(e) => Err(e),
        }
    }

    /// Unpins the most recent pinned message of a chat.
    pub fn unpin_chat_message(&self, chat_id: ChatId) -> (r: Result<True, TgError>)
        ensures
            r matches Err(e) ==> e is Transport || e is Protocol || e is Schema,
    {
        let body = body_chat(chat_id);
        match self.call_raw(Method::UnpinChatMessage, body.as_str().as_bytes()) {
            Ok(bytes) => true_from_response(bytes.as_slice()),
            Err(e) => Err(e),
        }
    }

    /// Unpins every pinned message of a chat.
    pub fn unpin_all_chat_message(&self, chat_id: ChatId) -> (r: Result<True, TgError>)
        ensures
            r matches Err(e) ==> e is Transport || e is Protocol || e is Schema,
    {
        let body = body_chat(chat_id);
        match self.call_raw(Method::UnpinAllChatMessages, body.as_str().as_bytes()) {
            Ok(bytes) => true_from_response(bytes.as_slice()),
            Err(e) => Err(e),
        }
    }

    /// Makes the bot leave a chat.
    pub fn leave_chat(&self, chat_id: ChatId) -> (r: Result<True, TgError>)
        ensures
            r matches Err(e) ==> e is Transport || e is Protocol || e is Schema,
    {
        let body = body_chat(chat_id);
        match self.call_raw(Method::LeaveChat, body.as_str().as_bytes()) {
            Ok(bytes) => true_from_response(bytes.as_slice()),
            Err(e) => Err(e),
        }
    }

    /// Asks the remote side about a chat.
    pub fn get_chat(&self, chat_id: ChatId) -> (r: Result<Chat, TgError>)
        ensures
            r matches Err(e) ==> e is Transport || e is Protocol || e is Schema,
    {
        let body = body_chat(chat_id);
        match self.call_raw(Method::GetChat, body.as_str().as_bytes()) {
            Ok(bytes) => chat_from_response(bytes.as_slice()),
            Err(e) => Err(e),
        }
    }

    /// Asks the remote side about a chat's administrators.
    pub fn get_chat_administrators(&self, chat_id: ChatId) -> (r: Result<ChatMember, TgError>)
        ensures
            r matches Err(e) ==> e is Transport || e is Protocol || e is Schema,
    {
        let body = body_chat(chat_id);
        match self.call_raw(Method::GetChatAdministrators, body.as_str().as_bytes()) {
            Ok(bytes) => chat_member_from_response(bytes.as_slice()),
            Err(e) => Err(e),
        }
    }

    /// Asks how many members a chat has.
    pub fn get_chat_member_count(&self, chat_id: ChatId) -> (r: Result<i32, TgError>)
        ensures
            r matches Err(e) ==> e is Transport || e is Protocol || e is Schema,
    {
        let body = body_chat(chat_id);
        match self.call_raw(Method::GetChatMemberCount, body.as_str().as_bytes()) {
            Ok(bytes) => i32_from_response(bytes.as_slice()),
            Err(e) => Err(e),
        }
    }

    /// Asks the remote side about one member of a chat. A failing envelope is always surfaced as the protocol error: no defaulted member value is ever returned.
    pub fn get_chat_member(&self, chat_id: ChatId, user_id: UserId) -> (r: Result<ChatMember, TgError>)
        ensures
            r matches Err(e) ==> e is Transport || e is Protocol || e is Schema,
    {
        let body = body_chat_user(chat_id, user_id);
        match self.call_raw(Method::GetChatMember, body.as_str().as_bytes()) {
            Ok(bytes) => chat_member_from_response(bytes.as_slice()),
            Err(e) => Err(e),
        }
    }

    /// Replaces the text of an already-sent message.
    pub fn edit_message_text(&self, chat_id: ChatId, message_id: MessageId, text: &str) -> (r: Result<Message, TgError>)
        ensures
            r matches Err(e) ==> e is Transport || e is Protocol || e is Schema,
    {
        let body = body_edit_message_text(chat_id, message_id, text);
        match self.call_raw(Method::EditMessageText, body.as_str().as_bytes()) {
            Ok(bytes) => message_from_response(bytes.as_slice()),
            Err(e) => Err(e),
        }
    }
}

impl Telegram {
    /// Asks the remote side for a user's profile photos.
    pub fn get_user_profile_photos(&self, user_id: UserId) -> (r: Result<
        UserProfilePhotos,
        TgError,
    >)
        ensures
            r matches Err(e) ==> e is Transport || e is Protocol || e is Schema,
    {
        match self.get_user_profile_photos_total(user_id) {
            Ok(total_count) => Ok(UserProfilePhotos { total_count }),
            Err(e) => Err(e),
        }
    }
}

} // verus!
