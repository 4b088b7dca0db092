//! Policy hooks: fail-closed authentication and authorization
//! decisions, and lifecycle webhook event planning.
//!
//! The HTTP exchanges themselves happen outside this crate; each
//! function here takes the outcome of one exchange as plain values —
//! `None` for a transport failure, otherwise the status code and the
//! parsed body — and computes the response record or the decision. A
//! transport failure, a non-success status and a body that does not say
//! allow all collapse to a denial: the system deliberately does not
//! distinguish them.

use vstd::prelude::*;
use vstd::string::StringExecFns;

use crate::publish::Publish;
use crate::topics::add_username_to_topic;
use crate::topics::opt_str_view;
use crate::topics::spec_inject;

verus! {

/// Binary authorization outcome; any ambiguity collapses to `Deny`.
#[derive(Clone, Copy, Debug, PartialEq, Eq, Structural)]
pub enum AuthDecision {
    Allow,
    Deny,
}

/// Error of lifecycle event planning: a PUBLISH packet whose topic or
/// payload is not text cannot be reported.
#[derive(Clone, Copy, Debug, PartialEq, Eq, Structural)]
pub enum HookError {
    NonTextPayload,
}

/// Parsed body of an authentication or authorization response.
#[derive(Clone, Debug, PartialEq, Eq)]
pub struct AuthResponse {
    pub result: String,
}

/// Outcome of one authentication exchange: the parsed body when the
/// exchange succeeded, and the status code seen (500 stands for a
/// transport failure).
#[derive(Clone, Debug, PartialEq, Eq)]
pub struct AuthResultResponse {
    pub auth_response: Option<AuthResponse>,
    pub status_code: u16,
}

/// Parsed body of an authorization response.
#[derive(Clone, Debug, PartialEq, Eq)]
pub struct AuthorizeResponse {
    pub result: String,
}

/// Outcome of one authorization exchange, shaped as the authentication
/// outcome is.
#[derive(Clone, Debug, PartialEq, Eq)]
pub struct AuthorizationResultResponse {
    pub auth_response: Option<AuthResponse>,
    pub status_code: u16,
}

/// Parsed body of a webhook response.
#[derive(Clone, Debug, PartialEq, Eq)]
pub struct WebhookResponse {
    pub result: String,
}

/// Outcome of one webhook notification: only the status code is ever
/// inspected, so the body stays unparsed.
#[derive(Clone, Debug, PartialEq, Eq)]
pub struct WebhookResultResponse {
    pub webhook_response: Option<WebhookResponse>,
    pub status_code: u16,
}

/// One lifecycle event as posted to the webhook endpoint; absent fields
/// are omitted from the serialized form entirely.
#[derive(Clone, Debug, PartialEq, Eq)]
pub struct WebhookPayload {
    pub clientid: Option<String>,
    pub payload: Option<String>,
    pub topic: Option<String>,
    pub action: Option<String>,
    pub username: Option<String>,
    pub event: Option<String>,
    pub reason_code: Option<String>,
}

/// Request body of a retained-message query.
#[derive(Clone, Debug, PartialEq, Eq)]
pub struct MqttRetainedPayload {
    pub topic: Option<String>,
}

/// One retained message as the retained-query endpoint reports it.
#[derive(Clone, Debug, PartialEq, Eq, Hash)]
pub struct MqttRetainedResult {
    pub topic: Option<String>,
    pub payload: Option<String>,
}

/// Outcome of one retained-message query.
#[derive(Clone, Debug, PartialEq, Eq)]
pub struct MqttRetainedResponse {
    pub mqtt_retained_result: Option<Vec<MqttRetainedResult>>,
    pub status_code: u16,
}

/// Mathematical model of a lifecycle event: each optional field as an
/// optional character sequence.
pub ghost struct WebhookPayloadView {
    pub clientid: Option<Seq<char>>,
    pub payload: Option<Seq<char>>,
    pub topic: Option<Seq<char>>,
    pub action: Option<Seq<char>>,
    pub username: Option<Seq<char>>,
    pub event: Option<Seq<char>>,
    pub reason_code: Option<Seq<char>>,
}

impl View for WebhookPayload {
    type V = WebhookPayloadView;

    open spec fn view(&self) -> WebhookPayloadView {
        WebhookPayloadView {
            clientid: opt_str_view(self.clientid),
            payload: opt_str_view(self.payload),
            topic: opt_str_view(self.topic),
            action: opt_str_view(self.action),
            username: opt_str_view(self.username),
            event: opt_str_view(self.event),
            reason_code: opt_str_view(self.reason_code),
        }
    }
}

/// The status code a response record carries: the code seen on the
/// wire, or 500 for a transport failure.
pub open spec fn spec_response_status(status: Option<u16>) -> u16 {
    match status {
        None => 500,
        Some(c) => c,
    }
}

/// Builds the authentication outcome record from one exchange: the body
/// is kept only on a success status that parsed, and a transport
/// failure reads as status 500.
pub fn authentication_response(status: Option<u16>, result: Option<String>) -> (r:
    AuthResultResponse)
    ensures
        r.status_code == spec_response_status(status),
        match r.auth_response {
            Some(a) => status == Some(200u16) && (result matches Some(s) && a.result@ == s@),
            None => !(status == Some(200u16) && result is Some),
        },
{
    match status {
        None => AuthResultResponse { auth_response: None, status_code: 500 },
        Some(code) => {
            if code == 200 {
                match result {
                    Some(body) => AuthResultResponse {
                        auth_response: Some(AuthResponse { result: body }),
                        status_code: code,
                    },
                    None => AuthResultResponse { auth_response: None, status_code: code },
                }
            } else {
                AuthResultResponse { auth_response: None, status_code: code }
            }
        },
    }
}

/// Builds the authorization outcome record from one exchange, exactly
/// as the authentication record is built.
pub fn authorization_response(status: Option<u16>, result: Option<String>) -> (r:
    AuthorizationResultResponse)
    ensures
        r.status_code == spec_response_status(status),
        match r.auth_response {
            Some(a) => status == Some(200u16) && (result matches Some(s) && a.result@ == s@),
            None => !(status == Some(200u16) && result is Some),
        },
{
    match status {
        None => AuthorizationResultResponse { auth_response: None, status_code: 500 },
        Some(code) => {
            if code == 200 {
                match result {
                    Some(body) => AuthorizationResultResponse {
                        auth_response: Some(AuthResponse { result: body }),
                        status_code: code,
                    },
                    None => AuthorizationResultResponse { auth_response: None, status_code: code },
                }
            } else {
                AuthorizationResultResponse { auth_response: None, status_code: code }
            }
        },
    }
}

/// Builds the webhook outcome record: only the status code is kept.
pub fn webhook_response(status: Option<u16>) -> (r: WebhookResultResponse)
    ensures
        r.status_code == spec_response_status(status),
        r.webhook_response is None,
{
    WebhookResultResponse { webhook_response: None, status_code: match status {
        None => 500,
        Some(code) => code,
    } }
}

/// Builds the retained-query outcome record: the reported messages are
/// kept only on a success status whose body parsed.
pub fn retained_response(status: Option<u16>, results: Option<Vec<MqttRetainedResult>>) -> (r:
    MqttRetainedResponse)
    ensures
        r.status_code == spec_response_status(status),
        if status == Some(200u16) {
            r.mqtt_retained_result == results
        } else {
            r.mqtt_retained_result is None
        },
{
    match status {
        None => MqttRetainedResponse { mqtt_retained_result: None, status_code: 500 },
        Some(code) => {
            if code == 200 {
                MqttRetainedResponse { mqtt_retained_result: results, status_code: code }
            } else {
                MqttRetainedResponse { mqtt_retained_result: None, status_code: code }
            }
        },
    }
}

/// Whether an outcome record reads as an allowance: a body was kept and
/// it says allow.
pub open spec fn spec_says_allow(body: Option<AuthResponse>) -> bool {
    body matches Some(a) && a.result@ == "allow"@
}

/// Maps an authentication outcome record to the decision: `Allow`
/// exactly when the kept body says allow.
pub fn auth_decision(result: &AuthResultResponse) -> (r: AuthDecision)
    ensures
        r == AuthDecision::Allow <==> spec_says_allow(result.auth_response),
{
    match &result.auth_response {
        Some(response) => {
            let allow = String::from_str("allow");
            if response.result == allow {
                AuthDecision::Allow
            } else {
                AuthDecision::Deny
            }
        },
        None => AuthDecision::Deny,
    }
}

/// Maps an authorization outcome record to the decision: `Allow`
/// exactly when the kept body says allow.
pub fn authorize_decision(result: &AuthorizationResultResponse) -> (r: AuthDecision)
    ensures
        r == AuthDecision::Allow <==> spec_says_allow(result.auth_response),
{
    match &result.auth_response {
        Some(response) => {
            let allow = String::from_str("allow");
            if response.result == allow {
                AuthDecision::Allow
            } else {
                AuthDecision::Deny
            }
        },
        None => AuthDecision::Deny,
    }
}

/// The fail-closed decision of one policy exchange: `Allow` exactly on
/// a success status whose body says allow; a transport failure, any
/// other status, an unreadable body and any other body text all read as
/// `Deny`.
pub open spec fn spec_policy_decision(status: Option<u16>, result: Option<Seq<char>>) -> AuthDecision {
    if status == Some(200u16) && result == Some("allow"@) {
        AuthDecision::Allow
    } else {
        AuthDecision::Deny
    }
}

/// Decides one authentication exchange end to end, fail-closed.
pub fn authenticate_outcome(status: Option<u16>, result: Option<String>) -> (r: AuthDecision)
    ensures
        r == spec_policy_decision(status, opt_str_view(result)),
{
    let response = authentication_response(status, result);
    auth_decision(&response)
}

/// Decides one authorization exchange end to end, fail-closed.
pub fn authorize_outcome(status: Option<u16>, result: Option<String>) -> (r: AuthDecision)
    ensures
        r == spec_policy_decision(status, opt_str_view(result)),
{
    let response = authorization_response(status, result);
    authorize_decision(&response)
}

/// One subscription filter of a SUBSCRIBE packet.
#[derive(Clone, Debug, PartialEq, Eq)]
pub struct Filter {
    pub path: String,
}

/// The topic filters of a SUBSCRIBE packet, in packet order.
#[derive(Clone, Debug, PartialEq, Eq)]
pub struct Subscribe {
    pub filters: Vec<Filter>,
}

/// The closed set of decoded control packets as lifecycle dispatch sees
/// them; every kind that triggers no notification is the explicit
/// `Other` arm.
#[derive(Clone, Debug, PartialEq, Eq)]
pub enum Packet {
    Subscribe(Subscribe),
    Unsubscribe,
    Disconnect,
    Publish(Publish),
    Other,
}

/// The event reported for one subscription filter: the filter's
/// tenant-injected topic under `session.subscribed`.
pub open spec fn spec_subscribe_event(
    path: Seq<char>,
    client_id: Seq<char>,
    username: Option<Seq<char>>,
) -> WebhookPayloadView {
    WebhookPayloadView {
        clientid: Some(client_id),
        payload: None,
        topic: Some(spec_inject(path, username)),
        action: None,
        username,
        event: Some("session.subscribed"@),
        reason_code: None,
    }
}

/// An event that carries no topic: unsubscription or disconnection.
pub open spec fn spec_plain_event(
    event: Seq<char>,
    client_id: Seq<char>,
    username: Option<Seq<char>>,
) -> WebhookPayloadView {
    WebhookPayloadView {
        clientid: Some(client_id),
        payload: None,
        topic: None,
        action: None,
        username,
        event: Some(event),
        reason_code: None,
    }
}

/// The event reported for a PUBLISH packet: its topic and payload read
/// as text, under `message.publish`.
pub open spec fn spec_publish_event(
    topic: Seq<u8>,
    payload: Seq<u8>,
    client_id: Seq<char>,
    username: Option<Seq<char>>,
) -> WebhookPayloadView {
    WebhookPayloadView {
        clientid: Some(client_id),
        payload: Some(vstd::utf8::decode_utf8(payload)),
        topic: Some(vstd::utf8::decode_utf8(topic)),
        action: None,
        username,
        event: Some("message.publish"@),
        reason_code: None,
    }
}

/// The event reported after an allowed authentication.
pub open spec fn spec_authn_complete_event(
    client_id: Seq<char>,
    username: Option<Seq<char>>,
) -> WebhookPayloadView {
    WebhookPayloadView {
        clientid: Some(client_id),
        payload: None,
        topic: None,
        action: None,
        username,
        event: Some("client.check_authn_complete"@),
        reason_code: None,
    }
}

/// The full event plan of one packet: one event per subscription filter
/// in filter order, one event for an unsubscription or a disconnection,
/// one event for a publication whose topic and payload are text — and a
/// `NonTextPayload` failure where they are not — and no event at all
/// for every other packet kind.
pub open spec fn spec_webhook_events(
    packet: Packet,
    client_id: Seq<char>,
    username: Option<Seq<char>>,
) -> Result<Seq<WebhookPayloadView>, HookError> {
    match packet {
        Packet::Subscribe(sub) => Ok(
            Seq::new(
                sub.filters@.len(),
                |i: int| spec_subscribe_event(sub.filters@[i].path@, client_id, username),
            ),
        ),
        Packet::Unsubscribe => Ok(seq![spec_plain_event("session.unsubscribed"@, client_id, username)]),
        Packet::Disconnect => Ok(seq![spec_plain_event("client.disconnected"@, client_id, username)]),
        Packet::Publish(p) => {
            if vstd::utf8::valid_utf8(p.topic@) && vstd::utf8::valid_utf8(p.payload@) {
                Ok(seq![spec_publish_event(p.topic@, p.payload@, client_id, username)])
            } else {
                Err(HookError::NonTextPayload)
            }
        },
        Packet::Other => Ok(Seq::<WebhookPayloadView>::empty()),
    }
}

/// Relies on `String::from_utf8`: it succeeds exactly on UTF-8 input
/// and yields the characters those bytes encode.
#[verifier::external_body]
fn bytes_to_string(v: &Vec<u8>) -> (r: Option<String>)
    ensures
        match r {
            Some(s) => vstd::utf8::valid_utf8(v@) && s@ == vstd::utf8::decode_utf8(v@),
            None => !vstd::utf8::valid_utf8(v@),
        },
{
    match String::from_utf8(v.clone()) {
        Ok(s) => Some(s),
        Err(_) => None,
    }
}

/// Clones an optional username, keeping its characters.
fn clone_opt_string(o: &Option<String>) -> (r: Option<String>)
    ensures
        opt_str_view(r) == opt_str_view(*o),
{
    match o {
        Some(s) => Some(s.clone()),
        None => None,
    }
}

/// Plans the lifecycle notifications of one decoded packet: the events
/// to post, in order. Only SUBSCRIBE, UNSUBSCRIBE, DISCONNECT and
/// PUBLISH packets notify; a SUBSCRIBE packet yields one event per
/// filter in filter order, each carrying the filter's tenant-injected
/// topic; a PUBLISH packet whose topic or payload is not text fails
/// with `NonTextPayload`.
pub fn webhook_events_for_packet(packet: &Packet, client_id: &str, username: &Option<String>) -> (r:
    Result<Vec<WebhookPayload>, HookError>)
    ensures
        match r {
            Ok(v) => {
                &&& spec_webhook_events(*packet, client_id@, opt_str_view(*username)) matches Ok(ev)
                &&& v@.len() == ev.len()
                &&& forall|i: int| 0 <= i < v@.len() ==> v@[i]@ == ev[i]
            },
            Err(e) => spec_webhook_events(*packet, client_id@, opt_str_view(*username)) == Err::<
                Seq<WebhookPayloadView>,
                HookError,
            >(e),
        },
{
    let ghost uname = opt_str_view(*username);
    match packet {
        Packet::Subscribe(sub) => {
            let mut events: Vec<WebhookPayload> = Vec::new();
            let count = sub.filters.len();
            let mut idx: usize = 0;
            while idx < count
                invariant
                    idx <= count,
                    count == sub.filters@.len(),
                    events@.len() == idx,
                    uname == opt_str_view(*username),
                    forall|i: int|
                        0 <= i < idx ==> events@[i]@ == spec_subscribe_event(
                            sub.filters@[i].path@,
                            client_id@,
                            uname,
                        ),
                decreases count - idx,
            {
                let topic = add_username_to_topic(
                    sub.filters[idx].path.as_str(),
                    clone_opt_string(username),
                );
                let event = WebhookPayload {
                    clientid: Some(client_id.to_owned()),
                    payload: None,
                    topic: Some(topic),
                    action: None,
                    username: clone_opt_string(username),
                    event: Some("session.subscribed".to_owned()),
                    reason_code: None,
                };
                events.push(event);
                idx = idx + 1;
            }
            Ok(events)
        },
        Packet::Unsubscribe => {
            let event = WebhookPayload {
                clientid: Some(client_id.to_owned()),
                payload: None,
                topic: None,
                action: None,
                username: clone_opt_string(username),
                event: Some("session.unsubscribed".to_owned()),
                reason_code: None,
            };
            Ok(vec![event])
        },
        Packet::Disconnect => {
            let event = WebhookPayload {
                clientid: Some(client_id.to_owned()),
                payload: None,
                topic: None,
                action: None,
                username: clone_opt_string(username),
                event: Some("client.disconnected".to_owned()),
                reason_code: None,
            };
            Ok(vec![event])
        },
        Packet::Publish(p) => {
            let topic = match bytes_to_string(&p.topic) {
                Some(t) => t,
                None => {
                    return Err(HookError::NonTextPayload);
                },
            };
            let payload = match bytes_to_string(&p.payload) {
                Some(t) => t,
                None => {
                    return Err(HookError::NonTextPayload);
                },
            };
            let event = WebhookPayload {
                clientid: Some(client_id.to_owned()),
                payload: Some(payload),
                topic: Some(topic),
                action: None,
                username: clone_opt_string(username),
                event: Some("message.publish".to_owned()),
                reason_code: None,
            };
            Ok(vec![event])
        },
        Packet::Other => Ok(Vec::new()),
    }
}

/// Plans lifecycle dispatch for one packet: with no webhook endpoint
/// configured the dispatch is a no-op — no event, no error — and with
/// one it is the event plan of the packet.
pub fn call_webhook_plan(
    packet: &Packet,
    client_id: &str,
    username: &Option<String>,
    webhook_url: &Option<String>,
) -> (r: Result<Vec<WebhookPayload>, HookError>)
    ensures
        webhook_url is None ==> (r matches Ok(v) && v@.len() == 0),
        webhook_url is Some ==> match r {
            Ok(v) => {
                &&& spec_webhook_events(*packet, client_id@, opt_str_view(*username)) matches Ok(ev)
                &&& v@.len() == ev.len()
                &&& forall|i: int| 0 <= i < v@.len() ==> v@[i]@ == ev[i]
            },
            Err(e) => spec_webhook_events(*packet, client_id@, opt_str_view(*username)) == Err::<
                Seq<WebhookPayloadView>,
                HookError,
            >(e),
        },
{
    match webhook_url {
        None => Ok(Vec::new()),
        Some(_) => webhook_events_for_packet(packet, client_id, username),
    }
}

/// Builds the best-effort event emitted after an allowed
/// authentication.
pub fn authn_complete_event(client_id: &str, username: &Option<String>) -> (r: WebhookPayload)
    ensures
        r@ == spec_authn_complete_event(client_id@, opt_str_view(*username)),
{
    WebhookPayload {
        clientid: Some(client_id.to_owned()),
        payload: None,
        topic: None,
        action: None,
        username: clone_opt_string(username),
        event: Some("client.check_authn_complete".to_owned()),
        reason_code: None,
    }
}

} // verus!

