//! The event-subscription state machine: per host trigger, either a
//! listen-registration round trip with the broker, or delivery of one
//! already-queued event to the caller's handler.

use vstd::prelude::*;

use crate::api::http_get;
use crate::decode::{decode_update_bytes, update_from_bytes_spec};
use crate::error::TgError;
use crate::render::{chars_to_string, push_str_chars};
use crate::types::Update;
use vstd::slice::slice_to_vec;
use vstd::string::{StringExecFns, StringSliceAdditionalSpecFns};

verus! {

/// What percent-encoding a token for a URL yields. The encoding is a
/// function of the input characters alone.
pub uninterp spec fn url_encoded(s: Seq<char>) -> Seq<char>;

/// Relies on `urlencoding::encode`: percent-encoding depends on the input
/// characters alone, and an empty input stays empty.
#[verifier::external_body]
fn url_encode(s: &str) -> (r: String)
    ensures
        r@ == url_encoded(s@),
        s@.len() == 0 ==> r@.len() == 0,
{
    urlencoding::encode(s).into_owned()
}

/// Where one invocation of the controller stands. Each host trigger
/// constructs a fresh controller; once a terminal state is reached, no
/// operation re-enters either branch.
#[derive(Clone, Copy, PartialEq, Eq, Structural, Debug)]
pub enum SubscriptionState {
    /// Freshly constructed; the execution-mode flag has not been read yet.
    Idle,
    /// The host asked for a new listener registration.
    Listening,
    /// The host already holds a queued event for this invocation.
    Delivering,
    /// The invocation ended and its work succeeded.
    TerminatedSuccess,
    /// The invocation ended and its work failed.
    TerminatedFailure,
}

/// What a finished registration asks the host to surface. Exactly one of
/// the two report channels is used: the status message on success, the
/// numeric error code on failure.
pub struct RegistrationOutcome {
    /// The human-readable line for the host's output channel; present
    /// exactly on success.
    pub status_message: Option<String>,
    /// The numeric code for the host's error channel; present exactly on
    /// failure.
    pub error_code: Option<i16>,
    /// The raw response body for the diagnostic log; present exactly on
    /// failure.
    pub error_log: Option<Vec<u8>>,
    /// A first update already carried by the registration response,
    /// when the response body decodes as one.
    pub first_update: Option<Update>,
}

/// What a finished delivery asks the host to surface. A decode failure
/// reports through the same numeric error channel as a failed
/// registration, instead of passing without a signal.
pub struct DeliveryOutcome {
    /// The decoded event for the caller's handler; present exactly on
    /// success.
    pub update: Option<Update>,
    /// The numeric code for the host's error channel; present exactly on
    /// failure. A decode failure has no transport status, so it reports
    /// zero, as a failed transport does.
    pub error_code: Option<i16>,
    /// The raw payload for the diagnostic log; present exactly on failure.
    pub error_log: Option<Vec<u8>>,
}

/// Whether a transport status code counts as success: the two-hundreds.
pub open spec fn is_success_status(s: int) -> bool {
    200 <= s < 300
}

/// The numeric code reported on a failed registration: the transport
/// status itself when it fits the host's signed 16-bit channel, zero
/// otherwise.
pub open spec fn error_code_spec(s: int) -> int {
    if s <= 32767 {
        s
    } else {
        0
    }
}

/// The status line reported on a successful registration.
pub open spec fn success_message_spec(agent: Seq<char>) -> Seq<char> {
    seq!['['] + agent + "] Listening for all messages to your bot."@
}

/// The broker URL that registers a listener: the broker prefix, the host
/// user and flow identity, then the percent-encoded token and the handler
/// entry point.
pub open spec fn listen_url_spec(
    prefix: Seq<char>,
    user: Seq<char>,
    flow: Seq<char>,
    token_enc: Seq<char>,
    handler: Seq<char>,
) -> Seq<char> {
    prefix + seq!['/'] + user + seq!['/'] + flow + "/listen?token="@ + token_enc
        + "&handler_fn="@ + handler
}

/// The broker URL that revokes the flow's previously registered listener.
pub open spec fn revoke_url_spec(
    prefix: Seq<char>,
    user: Seq<char>,
    flow: Seq<char>,
    token_enc: Seq<char>,
) -> Seq<char> {
    prefix + seq!['/'] + user + seq!['/'] + flow + "/revoke?token="@ + token_enc
}

/// Builds the listen-registration URL for the given host identity and
/// token.
pub fn listen_url(prefix: &str, user: &str, flow: &str, token: &str, handler: &str) -> (r: String)
    ensures
        r@ == listen_url_spec(prefix@, user@, flow@, url_encoded(token@), handler@),
{
    let enc = url_encode(token);
    let mut out: Vec<char> = Vec::new();
    push_str_chars(&mut out, prefix);
    out.push('/');
    push_str_chars(&mut out, user);
    out.push('/');
    push_str_chars(&mut out, flow);
    push_str_chars(&mut out, "/listen?token=");
    push_str_chars(&mut out, enc.as_str());
    push_str_chars(&mut out, "&handler_fn=");
    push_str_chars(&mut out, handler);
    proof {
        assert(out@ =~= listen_url_spec(prefix@, user@, flow@, url_encoded(token@), handler@));
    }
    chars_to_string(&out)
}

/// Builds the revoke URL for the given host identity and token.
pub fn revoke_url(prefix: &str, user: &str, flow: &str, token: &str) -> (r: String)
    ensures
        r@ == revoke_url_spec(prefix@, user@, flow@, url_encoded(token@)),
{
    let enc = url_encode(token);
    let mut out: Vec<char> = Vec::new();
    push_str_chars(&mut out, prefix);
    out.push('/');
    push_str_chars(&mut out, user);
    out.push('/');
    push_str_chars(&mut out, flow);
    push_str_chars(&mut out, "/revoke?token=");
    push_str_chars(&mut out, enc.as_str());
    proof {
        assert(out@ =~= revoke_url_spec(prefix@, user@, flow@, url_encoded(token@)));
    }
    chars_to_string(&out)
}

/// Whether a transport status counts as success.
pub fn is_success(status: u16) -> (r: bool)
    ensures
        r == is_success_status(status as int),
{
    200 <= status && status < 300
}

/// The numeric code reported for a failed registration.
pub fn error_code_of(status: u16) -> (r: i16)
    ensures
        r as int == error_code_spec(status as int),
{
    if status <= 32767 {
        status as i16
    } else {
        0
    }
}

/// Builds the status line reported on a successful registration.
pub fn success_message(agent: &str) -> (r: String)
    ensures
        r@ == success_message_spec(agent@),
{
    let mut out: Vec<char> = Vec::new();
    out.push('[');
    push_str_chars(&mut out, agent);
    push_str_chars(&mut out, "] Listening for all messages to your bot.");
    proof {
        assert(out@ =~= success_message_spec(agent@));
    }
    chars_to_string(&out)
}

/// One invocation of the subscription machinery. The host constructs a
/// fresh controller per trigger, commits it to one branch by the
/// execution-mode flag, and drives that branch to a terminal state.
pub struct SubscriptionController {
    pub state: SubscriptionState,
}

impl SubscriptionController {
    /// A fresh controller, before the execution-mode flag was read.
    pub fn new() -> (c: SubscriptionController)
        ensures
            c.state is Idle,
    {
        SubscriptionController { state: SubscriptionState::Idle }
    }

    /// Reads the host's execution-mode flag, once, and commits to a
    /// branch: one means a new registration is requested, anything else
    /// means an already-queued event awaits delivery.
    pub fn begin(&mut self, listening_flag: i32) -> (listening: bool)
        requires
            old(self).state is Idle,
        ensures
            listening == (listening_flag == 1),
            listening ==> final(self).state is Listening,
            !listening ==> final(self).state is Delivering,
    {
        if listening_flag == 1 {
            self.state = SubscriptionState::Listening;
            true
        } else {
            self.state = SubscriptionState::Delivering;
            false
        }
    }

    /// Handles the broker's handshake response. A success status ends the
    /// invocation successfully, reporting through the status channel
    /// exactly once and carrying the response's own update when it holds a
    /// decodable one. Anything else ends the invocation in failure,
    /// reporting through the numeric error channel exactly once and
    /// keeping the raw body for the diagnostic log.
    pub fn on_listen_response(&mut self, agent: &str, status: u16, body: Vec<u8>) -> (o:
        RegistrationOutcome)
        requires
            old(self).state is Listening,
        ensures
            is_success_status(status as int) ==> {
                &&& final(self).state is TerminatedSuccess
                &&& o.status_message matches Some(m) && m@ == success_message_spec(agent@)
                &&& o.error_code is None
                &&& o.error_log is None
                &&& match update_from_bytes_spec(body@) {
                    Some(u) => o.first_update matches Some(x) && x@ == u,
                    None => o.first_update is None,
                }
            },
            !is_success_status(status as int) ==> {
                &&& final(self).state is TerminatedFailure
                &&& o.status_message is None
                &&& o.error_code matches Some(c) && c as int == error_code_spec(status as int)
                &&& o.error_log matches Some(l) && l@ == body@
                &&& o.first_update is None
            },
    {
        if is_success(status) {
            let first_update = decode_update_bytes(body.as_slice());
            self.state = SubscriptionState::TerminatedSuccess;
            RegistrationOutcome {
                status_message: Some(success_message(agent)),
                error_code: None,
                error_log: None,
                first_update,
            }
        } else {
            self.state = SubscriptionState::TerminatedFailure;
            RegistrationOutcome {
                status_message: None,
                error_code: Some(error_code_of(status)),
                error_log: Some(body),
                first_update: None,
            }
        }
    }

    /// Ends the listening branch after a transport failure: no response
    /// was obtained, so there is no status to report; the numeric error
    /// channel carries zero and the transport layer's message is kept for
    /// the diagnostic log.
    pub fn on_transport_failure(&mut self, message: &str) -> (o: RegistrationOutcome)
        requires
            old(self).state is Listening,
        ensures
            final(self).state is TerminatedFailure,
            o.status_message is None,
            o.error_code == Some(0i16),
            o.error_log matches Some(l) && l@ == message.spec_bytes(),
            o.first_update is None,
    {
        self.state = SubscriptionState::TerminatedFailure;
        RegistrationOutcome {
            status_message: None,
            error_code: Some(0),
            error_log: Some(slice_to_vec(message.as_bytes())),
            first_update: None,
        }
    }

    /// Performs the whole listening branch: one outbound call to the
    /// broker at `url`. A response is classified by
    /// [`Self::on_listen_response`]; a transport failure before any
    /// response by [`Self::on_transport_failure`], with code zero and the
    /// transport message kept for the log. Whatever comes back, the
    /// invocation ends in a terminal state, reports through exactly one
    /// channel, and keeps the raw evidence on failure.
    pub fn run_registration(&mut self, agent: &str, url: &str) -> (o: RegistrationOutcome)
        requires
            old(self).state is Listening,
        ensures
            final(self).state is TerminatedSuccess || final(self).state is TerminatedFailure,
            final(self).state is TerminatedSuccess ==> o.status_message is Some && o.error_code
                is None && o.error_log is None,
            final(self).state is TerminatedFailure ==> o.status_message is None && o.error_code
                is Some && o.error_log is Some && o.first_update is None,
    {
        match http_get(url) {
            Ok(p) => self.on_listen_response(agent, p.0, p.1),
            Err(m) => self.on_transport_failure(m.as_str()),
        }
    }

    /// Delivers one already-queued event: decodes the host-provided
    /// payload as an update. A decodable payload ends the invocation
    /// successfully and hands the update out for the caller's handler. Any
    /// other payload ends it in failure with nothing to deliver, reported
    /// through the numeric error channel exactly once — the same
    /// error-reporting path the registration branch uses — with the raw
    /// payload kept for the diagnostic log.
    pub fn on_event_payload(&mut self, body: &[u8]) -> (o: DeliveryOutcome)
        requires
            old(self).state is Delivering,
        ensures
            match update_from_bytes_spec(body@) {
                Some(u) => {
                    &&& o.update matches Some(x) && x@ == u
                    &&& o.error_code is None
                    &&& o.error_log is None
                    &&& final(self).state is TerminatedSuccess
                },
                None => {
                    &&& o.update is None
                    &&& o.error_code == Some(0i16)
                    &&& o.error_log matches Some(l) && l@ == body@
                    &&& final(self).state is TerminatedFailure
                },
            },
    {
        match decode_update_bytes(body) {
            Some(u) => {
                self.state = SubscriptionState::TerminatedSuccess;
                DeliveryOutcome { update: Some(u), error_code: None, error_log: None }
            },
            None => {
                self.state = SubscriptionState::TerminatedFailure;
                DeliveryOutcome {
                    update: None,
                    error_code: Some(0),
                    error_log: Some(slice_to_vec(body)),
                }
            },
        }
    }
}

/// Checks the host's event-buffer invariant: the two-step fetch protocol
/// must write exactly as many bytes as it reported beforehand; anything
/// else is a bridge error, fatal for the invocation.
pub fn validate_event_buffer(reported: i32, written: i32) -> (r: Result<(), TgError>)
    ensures
        r is Ok <==> reported == written,
        r matches Err(e) ==> e is HostBridge,
{
    if reported == written {
        Ok(())
    } else {
        Err(TgError::HostBridge(String::from_str("event buffer length mismatch")))
    }
}

/// A registration outcome reports through exactly one channel: on success
/// the status message is present and the error code absent, on failure the
/// error code is present and the status message absent. This holds for
/// every terminal state the listening branch can reach.
pub proof fn lemma_registration_reports_once(
    c: SubscriptionController,
    o: RegistrationOutcome,
)
    requires
        c.state is TerminatedSuccess ==> o.status_message is Some && o.error_code is None,
        c.state is TerminatedFailure ==> o.status_message is None && o.error_code is Some,
        c.state is TerminatedSuccess || c.state is TerminatedFailure,
    ensures
        (o.status_message is Some && o.error_code is None) || (o.status_message is None
            && o.error_code is Some),
{
}

} // verus!
