//! Talk to the KerBridge broker.
//!
//! The helper presents the IdP's access token as an HTTP bearer credential to
//! `POST {broker}/ticket`; the broker validates it, resolves the identity to a
//! Samba account, issues a TGT, and returns it as a base64 MIT ccache. That ccache
//! is injected unchanged by [`crate::krbcred`].
//!
//! Failures are told apart on **status code plus body**, not on reachability. A
//! live broker's 4xx is an identity or authorization problem the user must act
//! on; its 5xx is a server-side outage to retry; a transport error means the
//! broker is unreachable. These are different tray states, so they are different
//! error variants here rather than one opaque string.
//!
//! Every route is two functions: what to send, and what the reply means. Sending
//! is the caller's.

use crate::encode;
use crate::encode::{b64decode, form_pair, quoted};
use crate::http::{Reply, ReplyModel};
use crate::json;
use crate::json::{
    array_field, bool_field, i64_field, object_text, text_field, Json, JsonDoc, Scalar,
};
use crate::text;
use crate::text::{decimal_of, has_char, joined, starts_with, trim, trim_end_char};
use vstd::prelude::*;
use vstd::string::*;

verus! {

/// A TGT fetched from the broker.
///
/// No `Debug`: `ccache` contains a live ticket and its session key.
pub struct Ticket {
    pub principal: String,
    /// Raw MIT ccache bytes (a fresh TGT for `principal`).
    pub ccache: Vec<u8>,
}

#[verifier::ext_equal]
pub struct TicketModel {
    pub principal: Seq<char>,
    pub ccache: Seq<u8>,
}

impl View for Ticket {
    type V = TicketModel;

    open spec fn view(&self) -> TicketModel {
        TicketModel { principal: self.principal@, ccache: self.ccache@ }
    }
}

/// The one 403 reason that means "device grants specifically", as opposed to
/// anything about this account's standing in the realm: a person refused this one
/// is admitted, can sign in with a browser that same minute, and needs an
/// administrator only if they want to stop doing so.
pub const REFUSED_NOT_GRANTED: &'static str = "account may not authorize a device";

/// The deployment has the feature off outright -- a different sentence again,
/// because no administrator action on *this account* would change it.
pub const REFUSED_GRANTS_DISABLED: &'static str = "device grants are not enabled";

/// The caller signed in perfectly well and is admitted -- they are simply not a
/// delegate of the account they named. It must never send anyone to a browser:
/// the sign-in that produced it was already good.
pub const REFUSED_NOT_DELEGATE: &'static str = "you may not authorize a device for that account";

/// A broker failure, categorized so the caller can choose an action without
/// parsing a message. The string is the broker's short reason, safe to show.
#[derive(Debug)]
pub enum BrokerError {
    /// 400 -- the request itself was malformed. A helper bug, not the user's.
    BadRequest(String),
    /// 401 -- the identity proof was rejected. Re-authentication is the fix.
    InvalidProof(String),
    /// 403 -- a valid identity that is not provisioned, is disabled, is outside
    /// the admission group, or may not authorize a device.
    ///
    /// The string is the broker's own reason, verbatim, and they are worth telling
    /// apart -- see [`REFUSED_NOT_GRANTED`].
    NotAdmitted(String),
    /// 404 -- the device this names is not on the account.
    NotFound(String),
    /// 409 -- the account already holds as many devices as the operator allows.
    Conflict(String),
    /// 429 -- rate limited. Back off and retry.
    RateLimited,
    /// 502/503 -- the directory, issuer, or realm is temporarily unavailable.
    ServerUnavailable(String),
    /// Any other status from a live broker.
    Unexpected(u16, String),
    /// The broker could not be reached at all.
    Unreachable(String),
    /// The broker answered, but its certificate did not validate.
    ///
    /// Distinct from `Unreachable` because the two want opposite advice: an
    /// unreachable broker is worth retrying and this is not.
    Untrusted(String),
    /// The broker answered, but not in the shape the contract promises.
    BadResponse(String),
}

#[verifier::ext_equal]
pub enum BrokerErrorModel {
    BadRequest(Seq<char>),
    InvalidProof(Seq<char>),
    NotAdmitted(Seq<char>),
    NotFound(Seq<char>),
    Conflict(Seq<char>),
    RateLimited,
    ServerUnavailable(Seq<char>),
    Unexpected(u16, Seq<char>),
    Unreachable(Seq<char>),
    Untrusted(Seq<char>),
    BadResponse(Seq<char>),
}

impl View for BrokerError {
    type V = BrokerErrorModel;

    open spec fn view(&self) -> BrokerErrorModel {
        match *self {
            BrokerError::BadRequest(m) => BrokerErrorModel::BadRequest(m@),
            BrokerError::InvalidProof(m) => BrokerErrorModel::InvalidProof(m@),
            BrokerError::NotAdmitted(m) => BrokerErrorModel::NotAdmitted(m@),
            BrokerError::NotFound(m) => BrokerErrorModel::NotFound(m@),
            BrokerError::Conflict(m) => BrokerErrorModel::Conflict(m@),
            BrokerError::RateLimited => BrokerErrorModel::RateLimited,
            BrokerError::ServerUnavailable(m) => BrokerErrorModel::ServerUnavailable(m@),
            BrokerError::Unexpected(s, m) => BrokerErrorModel::Unexpected(s, m@),
            BrokerError::Unreachable(m) => BrokerErrorModel::Unreachable(m@),
            BrokerError::Untrusted(m) => BrokerErrorModel::Untrusted(m@),
            BrokerError::BadResponse(m) => BrokerErrorModel::BadResponse(m@),
        }
    }
}

impl BrokerErrorModel {
    /// What the error says.
    pub open spec fn says(self) -> Seq<char> {
        match self {
            BrokerErrorModel::BadRequest(m) => "broker rejected the request as malformed: "@ + m,
            BrokerErrorModel::InvalidProof(m) => "broker rejected the identity proof: "@ + m,
            BrokerErrorModel::NotAdmitted(m) => "the broker refused this account: "@ + m,
            BrokerErrorModel::NotFound(m) => "no such device on this account: "@ + m,
            BrokerErrorModel::Conflict(m) => "too many devices already authorized: "@ + m,
            BrokerErrorModel::RateLimited => "broker is rate limiting; back off and retry"@,
            BrokerErrorModel::ServerUnavailable(m) => "broker dependency unavailable: "@ + m,
            BrokerErrorModel::Unexpected(s, m) => "unexpected broker status "@ + text::decimal(
                s as nat,
            ) + ": "@ + m,
            BrokerErrorModel::Unreachable(m) => "broker unreachable: "@ + m,
            BrokerErrorModel::Untrusted(m) => "broker certificate not trusted: "@ + m,
            BrokerErrorModel::BadResponse(m) => "broker response not understood: "@ + m,
        }
    }
}

impl BrokerError {
    /// What the error says.
    pub fn message(&self) -> (r: String)
        ensures
            r@ == self@.says(),
    {
        match self {
            BrokerError::BadRequest(m) => joined(
                "broker rejected the request as malformed: ",
                m.as_str(),
            ),
            BrokerError::InvalidProof(m) => joined(
                "broker rejected the identity proof: ",
                m.as_str(),
            ),
            // Names no reason of its own: this one variant carries several of them.
            BrokerError::NotAdmitted(m) => joined("the broker refused this account: ", m.as_str()),
            BrokerError::NotFound(m) => joined("no such device on this account: ", m.as_str()),
            BrokerError::Conflict(m) => joined("too many devices already authorized: ", m.as_str()),
            BrokerError::RateLimited => "broker is rate limiting; back off and retry".to_owned(),
            BrokerError::ServerUnavailable(m) => joined(
                "broker dependency unavailable: ",
                m.as_str(),
            ),
            BrokerError::Unexpected(s, m) => {
                let n = decimal_of(*s as u64);
                let a = joined("unexpected broker status ", n.as_str());
                let b = joined(a.as_str(), ": ");
                joined(b.as_str(), m.as_str())
            },
            BrokerError::Unreachable(m) => joined("broker unreachable: ", m.as_str()),
            BrokerError::Untrusted(m) => joined("broker certificate not trusted: ", m.as_str()),
            BrokerError::BadResponse(m) => joined("broker response not understood: ", m.as_str()),
        }
    }
}

/// Which proof a request carries, as the `Authorization` header names it. Exactly
/// one scheme, because the broker refuses anything that is neither rather than
/// falling through to a weaker check.
pub enum AuthScheme<'a> {
    /// An IdP access token, from the browser or from WAM.
    Bearer(&'a str),
    /// A device-grant assertion, signed by this machine's own key.
    DeviceGrant(&'a str),
}

/// The header that a proof is sent as.
pub open spec fn auth_header(scheme: AuthScheme<'_>) -> Seq<char> {
    match scheme {
        AuthScheme::Bearer(t) => "Bearer "@ + t@,
        AuthScheme::DeviceGrant(a) => "DeviceGrant "@ + a@,
    }
}

impl<'a> AuthScheme<'a> {
    pub fn header(&self) -> (r: String)
        ensures
            r@ == auth_header(*self),
    {
        match self {
            AuthScheme::Bearer(t) => joined("Bearer ", t),
            AuthScheme::DeviceGrant(a) => joined("DeviceGrant ", a),
        }
    }
}

#[derive(Clone, Copy, PartialEq, Eq, Debug, Structural)]
pub enum Method {
    Get,
    Post,
    Delete,
}

/// One request to the broker.
pub struct Request {
    pub method: Method,
    pub url: String,
    /// The `Authorization` header.
    pub authorization: Option<String>,
    /// A JSON body.
    pub body: Option<String>,
}

#[verifier::ext_equal]
pub struct RequestModel {
    pub method: Method,
    pub url: Seq<char>,
    pub authorization: Option<Seq<char>>,
    pub body: Option<Seq<char>>,
}

impl View for Request {
    type V = RequestModel;

    open spec fn view(&self) -> RequestModel {
        RequestModel {
            method: self.method,
            url: self.url@,
            authorization: text::opt_text(self.authorization),
            body: text::opt_text(self.body),
        }
    }
}

// ------------------------------------------------------------------ any answer

/// The reason in a refusal: the `error` of its JSON body, or the body itself.
pub open spec fn reason_in(body: Seq<char>, parsed: Result<JsonDoc, Seq<char>>) -> Seq<char> {
    match parsed {
        Ok(d) => match d.text_at("error"@) {
            Some(s) => s,
            None => text::trimmed(body),
        },
        Err(_) => text::trimmed(body),
    }
}

/// The error that a status with a reason is.
pub open spec fn error_of(status: u16, reason: Seq<char>) -> BrokerErrorModel {
    if status == 400 {
        BrokerErrorModel::BadRequest(reason)
    } else if status == 401 {
        BrokerErrorModel::InvalidProof(reason)
    } else if status == 403 {
        BrokerErrorModel::NotAdmitted(reason)
    } else if status == 404 {
        BrokerErrorModel::NotFound(reason)
    } else if status == 409 {
        BrokerErrorModel::Conflict(reason)
    } else if status == 429 {
        BrokerErrorModel::RateLimited
    } else if status == 502 || status == 503 {
        BrokerErrorModel::ServerUnavailable(reason)
    } else {
        BrokerErrorModel::Unexpected(status, reason)
    }
}

/// A status that the broker succeeds with. 204 is a revocation succeeding with
/// nothing to say.
pub open spec fn succeeds(status: u16) -> bool {
    status == 200 || status == 201 || status == 204
}

/// The body of a reply, or the error that the reply is.
pub open spec fn answered(reply: ReplyModel) -> Result<Seq<char>, BrokerErrorModel> {
    match reply {
        ReplyModel::Answered { status, body } => if succeeds(status) {
            Ok(body)
        } else {
            Err(error_of(status, reason_in(body, json::json_text(body))))
        },
        ReplyModel::Failed(f) => Err(
            if f.untrusted {
                BrokerErrorModel::Untrusted(f.message)
            } else {
                BrokerErrorModel::Unreachable(f.message)
            },
        ),
        ReplyModel::Unread(e) => Err(
            BrokerErrorModel::BadResponse("reading response body: "@ + e),
        ),
    }
}

/// The error that a status other than success is, given what parsing made of the
/// body.
pub fn refusal(status: u16, body: &str, parsed: &Result<Json, String>) -> (r: BrokerError)
    ensures
        r@ == error_of(
            status,
            reason_in(
                body@,
                match *parsed {
                    Ok(j) => Ok(json::doc(j)),
                    Err(e) => Err(e@),
                },
            ),
        ),
{
    // The reason is short and safe to surface; the credential is never echoed.
    let named = match parsed {
        Ok(j) => text_field(j, "error"),
        Err(_) => None,
    };
    let reason = match named {
        Some(s) => s,
        None => trim(body),
    };
    if status == 400 {
        BrokerError::BadRequest(reason)
    } else if status == 401 {
        BrokerError::InvalidProof(reason)
    } else if status == 403 {
        BrokerError::NotAdmitted(reason)
    } else if status == 404 {
        BrokerError::NotFound(reason)
    } else if status == 409 {
        BrokerError::Conflict(reason)
    } else if status == 429 {
        BrokerError::RateLimited
    } else if status == 502 || status == 503 {
        BrokerError::ServerUnavailable(reason)
    } else {
        BrokerError::Unexpected(status, reason)
    }
}

/// One reply, one classified failure. Every broker route answers the same way -- a
/// JSON body on success, and `{"error": "...", "request_id": "..."}` on anything
/// else -- so the status mapping lives here once.
pub fn receive(reply: Reply) -> (r: Result<String, BrokerError>)
    ensures
        match r {
            Ok(s) => answered(reply@) == Ok::<Seq<char>, BrokerErrorModel>(s@),
            Err(e) => answered(reply@) == Err::<Seq<char>, BrokerErrorModel>(e@),
        },
{
    match reply {
        Reply::Answered { status, body } => {
            if status == 200 || status == 201 || status == 204 {
                return Ok(body);
            }
            let parsed = json::parse(body.as_str());
            Err(refusal(status, body.as_str(), &parsed))
        },
        Reply::Failed(f) => if f.untrusted {
            Err(BrokerError::Untrusted(f.message))
        } else {
            Err(BrokerError::Unreachable(f.message))
        },
        Reply::Unread(e) => Err(
            BrokerError::BadResponse(joined("reading response body: ", e.as_str())),
        ),
    }
}

// --------------------------------------------------------------------- targets

/// What is wrong with a target, if anything. A UPN is a second mutable spelling
/// arriving as end-user input, so the wire takes a login name or a literal `kb1|`
/// value and nothing else.
pub open spec fn target_fault(target: Seq<char>) -> Option<Seq<char>> {
    let t = text::trimmed(target);
    if t.len() == 0 {
        Some("empty target"@)
    } else if !"kb1|"@.is_prefix_of(t) && t.contains('@') {
        Some(
            encode::quoted_text(t)
                + " looks like a UPN; name the account by its login name or its kb1| identity"@,
        )
    } else {
        None
    }
}

/// Refuse the one spelling of a target the broker refuses, before it is sent: the
/// round trip is a browser sign-in long on the paths that carry a target.
pub fn check_target(target: &str) -> (r: Result<(), String>)
    ensures
        match r {
            Ok(()) => target_fault(target@) is None,
            Err(e) => target_fault(target@) == Some(e@),
        },
{
    let t = trim(target);
    if t.as_str().is_empty() {
        return Err("empty target".to_owned());
    }
    if !starts_with(t.as_str(), "kb1|") && has_char(t.as_str(), '@') {
        let named = quoted(t.as_str());
        return Err(
            joined(
                named.as_str(),
                " looks like a UPN; name the account by its login name or its kb1| identity",
            ),
        );
    }
    Ok(())
}

/// A URL with the account a request acts on, as the broker's `for` parameter.
/// Absent is the caller themselves.
pub open spec fn aimed(url: Seq<char>, target: Option<Seq<char>>) -> Seq<char> {
    match target {
        Some(t) => url + "?"@ + encode::form_text("for"@) + seq!['='] + encode::form_text(t),
        None => url,
    }
}

pub fn for_target(url: String, target: Option<&str>) -> (r: String)
    ensures
        r@ == aimed(url@, text::opt_str(target)),
{
    match target {
        Some(t) => {
            let query = form_pair("for", t);
            let base = joined(url.as_str(), "?");
            let r = joined(base.as_str(), query.as_str());
            assert(r@ =~= aimed(url@, Some(t@)));
            r
        },
        None => url,
    }
}

// ---------------------------------------------------------------------- /nonce

/// A route of the broker.
pub open spec fn route(broker_url: Seq<char>, path: Seq<char>) -> Seq<char> {
    text::without_trailing(broker_url, '/') + path
}

fn route_of(broker_url: &str, path: &str) -> (r: String)
    ensures
        r@ == route(broker_url@, path@),
{
    let base = trim_end_char(broker_url, '/');
    joined(base.as_str(), path)
}

/// Ask for a single-use nonce for a device assertion. Unauthenticated, because
/// sixteen random bytes let nobody in.
pub fn nonce_request(broker_url: &str) -> (r: Request)
    ensures
        r@ == (RequestModel {
            method: Method::Get,
            url: route(broker_url@, "/nonce"@),
            authorization: None,
            body: None,
        }),
{
    Request {
        method: Method::Get,
        url: route_of(broker_url, "/nonce"),
        authorization: None,
        body: None,
    }
}

/// The nonce in the body of a reply, as far as it is a document.
pub open spec fn nonce_text(body: Result<JsonDoc, Seq<char>>) -> Result<
    Seq<char>,
    BrokerErrorModel,
> {
    match body {
        Ok(d) => match d.text_at("nonce"@) {
            Some(s) => Ok(s),
            None => Err(BrokerErrorModel::BadResponse("nonce response has no `nonce`"@)),
        },
        Err(_) => Err(BrokerErrorModel::BadResponse("nonce response has no `nonce`"@)),
    }
}

/// The nonce in a reply.
pub open spec fn nonce_in(reply: ReplyModel) -> Result<Seq<char>, BrokerErrorModel> {
    match answered(reply) {
        Err(e) => Err(e),
        Ok(body) => nonce_text(json::json_text(body)),
    }
}

pub fn nonce_of(body: &Result<Json, String>) -> (r: Result<String, BrokerError>)
    ensures
        ({
            let want = nonce_text(
                match *body {
                    Ok(j) => Ok(json::doc(j)),
                    Err(e) => Err(e@),
                },
            );
            match r {
                Ok(s) => want == Ok::<Seq<char>, BrokerErrorModel>(s@),
                Err(e) => want == Err::<Seq<char>, BrokerErrorModel>(e@),
            }
        }),
{
    if let Ok(j) = body {
        if let Some(s) = text_field(j, "nonce") {
            return Ok(s);
        }
    }
    Err(BrokerError::BadResponse("nonce response has no `nonce`".to_owned()))
}

pub fn read_nonce(reply: Reply) -> (r: Result<String, BrokerError>)
    ensures
        match r {
            Ok(s) => nonce_in(reply@) == Ok::<Seq<char>, BrokerErrorModel>(s@),
            Err(e) => nonce_in(reply@) == Err::<Seq<char>, BrokerErrorModel>(e@),
        },
{
    match receive(reply) {
        Ok(body) => nonce_of(&json::parse(body.as_str())),
        Err(e) => Err(e),
    }
}

// -------------------------------------------------------------------- /devices

/// A device grant as the broker reports it back.
pub struct Device {
    /// The operator handle, and what a revocation names.
    pub grant_id: String,
    /// The `kb1|` value this device must claim on every later exchange. Taken from
    /// the broker rather than assembled here: the encoding has exactly one
    /// implementation.
    pub identity: String,
    /// What the machine called itself when it registered. Not unique.
    pub label: String,
    /// Unix seconds.
    pub added: i64,
    /// Unix seconds, absent until the grant has been used, and day-granular when
    /// present.
    pub last_seen: Option<i64>,
    /// Unix seconds by which someone must sign in through a browser again.
    pub sign_in_required_by: i64,
    /// Whether the operator's current setting has moved that deadline in below the
    /// one stamped at registration.
    pub clamped: bool,
}

#[verifier::ext_equal]
pub struct DeviceModel {
    pub grant_id: Seq<char>,
    pub identity: Seq<char>,
    pub label: Seq<char>,
    pub added: i64,
    pub last_seen: Option<i64>,
    pub sign_in_required_by: i64,
    pub clamped: bool,
}

impl View for Device {
    type V = DeviceModel;

    open spec fn view(&self) -> DeviceModel {
        DeviceModel {
            grant_id: self.grant_id@,
            identity: self.identity@,
            label: self.label@,
            added: self.added,
            last_seen: self.last_seen,
            sign_in_required_by: self.sign_in_required_by,
            clamped: self.clamped,
        }
    }
}

/// A field that a device response lacks.
pub open spec fn lacks(key: Seq<char>) -> BrokerErrorModel {
    BrokerErrorModel::BadResponse("device response has no `"@ + key + "`"@)
}

/// The device in a document: strict about the three fields a later exchange
/// depends on, lenient about the rest, which are only displayed.
pub open spec fn device_in(d: JsonDoc) -> Result<DeviceModel, BrokerErrorModel> {
    match d.text_at("grant_id"@) {
        None => Err(lacks("grant_id"@)),
        Some(grant_id) => match d.text_at("identity"@) {
            None => Err(lacks("identity"@)),
            Some(identity) => match d.i64_at("sign_in_required_by"@) {
                None => Err(lacks("sign_in_required_by"@)),
                Some(sign_in_required_by) => Ok(
                    DeviceModel {
                        grant_id,
                        identity,
                        label: text::or_nothing(d.text_at("label"@)),
                        added: match d.i64_at("added"@) {
                            Some(t) => t,
                            None => 0,
                        },
                        last_seen: d.i64_at("last_seen"@),
                        sign_in_required_by,
                        clamped: match d.bool_at("clamped"@) {
                            Some(b) => b,
                            None => false,
                        },
                    },
                ),
            },
        },
    }
}

fn lack(key: &str) -> (r: BrokerError)
    ensures
        r@ == lacks(key@),
{
    let a = joined("device response has no `", key);
    BrokerError::BadResponse(joined(a.as_str(), "`"))
}

pub fn parse_device(json: &Json) -> (r: Result<Device, BrokerError>)
    ensures
        match r {
            Ok(d) => device_in(json::doc(*json)) == Ok::<DeviceModel, BrokerErrorModel>(d@),
            Err(e) => device_in(json::doc(*json)) == Err::<DeviceModel, BrokerErrorModel>(e@),
        },
{
    let grant_id = match text_field(json, "grant_id") {
        Some(s) => s,
        None => {
            return Err(lack("grant_id"));
        },
    };
    let identity = match text_field(json, "identity") {
        Some(s) => s,
        None => {
            return Err(lack("identity"));
        },
    };
    let sign_in_required_by: i64 = match i64_field(json, "sign_in_required_by") {
        Some(t) => t,
        None => {
            return Err(lack("sign_in_required_by"));
        },
    };
    Ok(
        Device {
            grant_id,
            identity,
            label: match text_field(json, "label") {
                Some(s) => s,
                None => String::new(),
            },
            added: match i64_field(json, "added") {
                Some(t) => t,
                None => 0,
            },
            last_seen: i64_field(json, "last_seen"),
            sign_in_required_by,
            clamped: match bool_field(json, "clamped") {
                Some(b) => b,
                None => false,
            },
        },
    )
}

/// The members of a registration's body.
pub open spec fn registration(
    alg: Seq<char>,
    key: Seq<char>,
    label: Seq<char>,
    target: Option<Seq<char>>,
) -> Seq<(Seq<char>, JsonDoc)> {
    let own = seq![
        ("alg"@, JsonDoc::Str(alg)),
        ("key"@, JsonDoc::Str(key)),
        ("label"@, JsonDoc::Str(label)),
    ];
    match target {
        Some(t) => own.push(("for"@, JsonDoc::Str(t))),
        None => own,
    }
}

/// Authorize this device, with the IdP token the user has just signed in with.
///
/// `target` names somebody else's account, and then the broker additionally
/// requires the signed-in user to be one of that account's delegates. A body field
/// rather than a query parameter on this one route, because this is the only one
/// of the three that has a body to put it in.
pub fn register_request(
    broker_url: &str,
    access_token: &str,
    alg: &str,
    public_key_b64url: &str,
    label: &str,
    target: Option<&str>,
) -> (r: Request)
    ensures
        r@ == (RequestModel {
            method: Method::Post,
            url: route(broker_url@, "/devices"@),
            authorization: Some("Bearer "@ + access_token@),
            body: Some(
                json::json_object_text(
                    registration(alg@, public_key_b64url@, label@, text::opt_str(target)),
                ),
            ),
        }),
        json::json_text(r@.body->0) matches Ok(d) && d.text_at("alg"@) == Some(alg@)
            && d.text_at("key"@) == Some(public_key_b64url@) && d.text_at("label"@) == Some(label@)
            && (target matches Some(t) ==> d.text_at("for"@) == Some(t@)),
{
    proof {
        reveal_strlit("alg");
        reveal_strlit("key");
        reveal_strlit("label");
        reveal_strlit("for");
        assert("alg"@[0] == 'a' && "key"@[0] == 'k' && "label"@[0] == 'l' && "for"@[0] == 'f');
    }
    let mut members: Vec<(String, Scalar)> = Vec::new();
    members.push(("alg".to_owned(), Scalar::Text(alg.to_owned())));
    members.push(("key".to_owned(), Scalar::Text(public_key_b64url.to_owned())));
    members.push(("label".to_owned(), Scalar::Text(label.to_owned())));
    if let Some(t) = target {
        members.push(("for".to_owned(), Scalar::Text(t.to_owned())));
    }
    let ghost m = members@;
    assert(json::scalars(m) =~= registration(
        alg@,
        public_key_b64url@,
        label@,
        text::opt_str(target),
    ));
    let body = object_text(members);
    proof {
        let d = json::json_text(body@)->Ok_0;
        assert(d.member(m[0].0@) == Some(json::scalar_doc(m[0].1)));
        assert(d.member(m[1].0@) == Some(json::scalar_doc(m[1].1)));
        assert(d.member(m[2].0@) == Some(json::scalar_doc(m[2].1)));
        if target is Some {
            assert(d.member(m[3].0@) == Some(json::scalar_doc(m[3].1)));
        }
    }
    Request {
        method: Method::Post,
        url: route_of(broker_url, "/devices"),
        authorization: Some(AuthScheme::Bearer(access_token).header()),
        body: Some(body),
    }
}

/// A document in a reply, where the reply succeeded.
pub open spec fn document_in(reply: ReplyModel, complaint: Seq<char>) -> Result<
    JsonDoc,
    BrokerErrorModel,
> {
    match answered(reply) {
        Err(e) => Err(e),
        Ok(body) => match json::json_text(body) {
            Ok(d) => Ok(d),
            Err(e) => Err(BrokerErrorModel::BadResponse(complaint + e)),
        },
    }
}

fn read_document(reply: Reply, complaint: &str) -> (r: Result<Json, BrokerError>)
    ensures
        match r {
            Ok(j) => document_in(reply@, complaint@) == Ok::<JsonDoc, BrokerErrorModel>(
                json::doc(j),
            ),
            Err(e) => document_in(reply@, complaint@) == Err::<JsonDoc, BrokerErrorModel>(e@),
        },
{
    let body = match receive(reply) {
        Ok(body) => body,
        Err(e) => {
            return Err(e);
        },
    };
    match json::parse(body.as_str()) {
        Ok(j) => Ok(j),
        Err(e) => Err(BrokerError::BadResponse(joined(complaint, e.as_str()))),
    }
}

/// The device in a reply to a registration.
pub open spec fn registered(reply: ReplyModel) -> Result<DeviceModel, BrokerErrorModel> {
    match document_in(reply, "device response is not JSON: "@) {
        Err(e) => Err(e),
        Ok(d) => device_in(d),
    }
}

/// The [`Device::identity`] that comes back is the *target's*, which is the only
/// place this machine learns whose grant it now holds.
pub fn read_registration(reply: Reply) -> (r: Result<Device, BrokerError>)
    ensures
        match r {
            Ok(d) => registered(reply@) == Ok::<DeviceModel, BrokerErrorModel>(d@),
            Err(e) => registered(reply@) == Err::<DeviceModel, BrokerErrorModel>(e@),
        },
{
    match read_document(reply, "device response is not JSON: ") {
        Ok(j) => parse_device(&j),
        Err(e) => Err(e),
    }
}

/// Ask for every device this account has authorized. With a `target`, the account
/// they are a delegate of instead.
///
/// A token and not an assertion: a machine holding one grant has no business
/// enumerating the account's others.
pub fn list_request(broker_url: &str, access_token: &str, target: Option<&str>) -> (r: Request)
    ensures
        r@ == (RequestModel {
            method: Method::Get,
            url: aimed(route(broker_url@, "/devices"@), text::opt_str(target)),
            authorization: Some("Bearer "@ + access_token@),
            body: None,
        }),
{
    Request {
        method: Method::Get,
        url: for_target(route_of(broker_url, "/devices"), target),
        authorization: Some(AuthScheme::Bearer(access_token).header()),
        body: None,
    }
}

/// The devices in an array, or what is wrong with the first that is none.
pub open spec fn devices_in(v: Seq<JsonDoc>) -> Result<Seq<DeviceModel>, BrokerErrorModel>
    decreases v.len(),
{
    if v.len() == 0 {
        Ok(Seq::empty())
    } else {
        match devices_in(v.drop_last()) {
            Err(e) => Err(e),
            Ok(before) => match device_in(v.last()) {
                Err(e) => Err(e),
                Ok(d) => Ok(before.push(d)),
            },
        }
    }
}

/// The devices in a list.
pub open spec fn list_in(d: JsonDoc) -> Result<Seq<DeviceModel>, BrokerErrorModel> {
    match d.array_at("devices"@) {
        None => Err(BrokerErrorModel::BadResponse("device list has no `devices` array"@)),
        Some(v) => devices_in(v),
    }
}

/// The devices in a reply to a listing.
pub open spec fn listed(reply: ReplyModel) -> Result<Seq<DeviceModel>, BrokerErrorModel> {
    match document_in(reply, "device list is not JSON: "@) {
        Err(e) => Err(e),
        Ok(d) => list_in(d),
    }
}

/// The devices behind a vector of them.
pub open spec fn devices(v: Seq<Device>) -> Seq<DeviceModel> {
    Seq::new(v.len(), |i: int| v[i]@)
}

/// The first devices of an array with a bad one are an error already.
proof fn a_bad_device_spoils_the_list(v: Seq<JsonDoc>, n: int)
    requires
        0 <= n <= v.len(),
        devices_in(v.take(n)) is Err,
    ensures
        devices_in(v) == devices_in(v.take(n)),
    decreases v.len() - n,
{
    if n < v.len() {
        assert(v.take(n + 1).drop_last() =~= v.take(n));
        a_bad_device_spoils_the_list(v, n + 1);
    } else {
        assert(v.take(n) =~= v);
    }
}

pub fn list_of(list: &Json) -> (r: Result<Vec<Device>, BrokerError>)
    ensures
        match r {
            Ok(v) => list_in(json::doc(*list)) == Ok::<Seq<DeviceModel>, BrokerErrorModel>(
                devices(v@),
            ),
            Err(e) => list_in(json::doc(*list)) == Err::<Seq<DeviceModel>, BrokerErrorModel>(e@),
        },
{
    let ghost want = list_in(json::doc(*list));
    let v = match array_field(list, "devices") {
        Some(v) => v,
        None => {
            return Err(BrokerError::BadResponse("device list has no `devices` array".to_owned()));
        },
    };
    let ghost d = json::docs(v@);
    let mut out: Vec<Device> = Vec::new();
    let mut i: usize = 0;
    proof {
        assert(devices(out@) =~= Seq::empty());
        assert(d.take(0) =~= Seq::empty());
        if v@.len() > 0 {
            json::docs_at(v@, 0);
        } else {
            assert(json::docs(v@).len() == 0);
        }
    }
    while i < v.len()
        invariant
            i <= v@.len(),
            d == json::docs(v@),
            d.len() == v@.len(),
            want == list_in(json::doc(*list)),
            want == devices_in(d),
            devices_in(d.take(i as int)) == Ok::<Seq<DeviceModel>, BrokerErrorModel>(devices(out@)),
        decreases v@.len() - i,
    {
        proof {
            json::docs_at(v@, i as int);
            assert(d.take(i + 1).drop_last() =~= d.take(i as int));
            assert(d.take(i + 1).last() == d[i as int]);
        }
        match parse_device(&v[i]) {
            Ok(device) => {
                let ghost was = out@;
                out.push(device);
                assert(devices(out@) =~= devices(was).push(device@));
            },
            Err(e) => {
                proof {
                    a_bad_device_spoils_the_list(d, i + 1);
                }
                return Err(e);
            },
        }
        i = i + 1;
    }
    assert(d.take(i as int) =~= d);
    Ok(out)
}

pub fn read_list(reply: Reply) -> (r: Result<Vec<Device>, BrokerError>)
    ensures
        match r {
            Ok(v) => listed(reply@) == Ok::<Seq<DeviceModel>, BrokerErrorModel>(devices(v@)),
            Err(e) => listed(reply@) == Err::<Seq<DeviceModel>, BrokerErrorModel>(e@),
        },
{
    match read_document(reply, "device list is not JSON: ") {
        Ok(list) => list_of(&list),
        Err(e) => Err(e),
    }
}

/// Stop one device.
///
/// Removing *another* device needs an IdP token, because a compromised machine
/// must not be able to knock the user's other devices offline. Removing *this*
/// one may present its own assertion, because leaving is not an attack. `target`
/// therefore only ever goes with an [`AuthScheme::Bearer`].
pub fn revoke_request(
    broker_url: &str,
    scheme: AuthScheme<'_>,
    grant_id: &str,
    target: Option<&str>,
) -> (r: Request)
    ensures
        r@ == (RequestModel {
            method: Method::Delete,
            url: aimed(route(broker_url@, "/devices/"@) + grant_id@, text::opt_str(target)),
            authorization: Some(auth_header(scheme)),
            body: None,
        }),
{
    let devices = route_of(broker_url, "/devices/");
    Request {
        method: Method::Delete,
        url: for_target(joined(devices.as_str(), grant_id), target),
        authorization: Some(scheme.header()),
        body: None,
    }
}

pub fn read_revocation(reply: Reply) -> (r: Result<(), BrokerError>)
    ensures
        r is Ok <==> answered(reply@) is Ok,
        r matches Err(e) ==> answered(reply@) == Err::<Seq<char>, BrokerErrorModel>(e@),
{
    match receive(reply) {
        Ok(_) => Ok(()),
        Err(e) => Err(e),
    }
}

// --------------------------------------------------------------------- /ticket

/// Exchange an identity proof for a TGT.
pub fn ticket_request(broker_url: &str, scheme: AuthScheme<'_>) -> (r: Request)
    ensures
        r@ == (RequestModel {
            method: Method::Post,
            url: route(broker_url@, "/ticket"@),
            authorization: Some(auth_header(scheme)),
            body: None,
        }),
{
    Request {
        method: Method::Post,
        url: route_of(broker_url, "/ticket"),
        authorization: Some(scheme.header()),
        body: None,
    }
}

/// The ticket in the body of an answer.
pub open spec fn ticket_in(body: Result<JsonDoc, Seq<char>>) -> Result<
    TicketModel,
    BrokerErrorModel,
> {
    match body {
        Err(e) => Err(BrokerErrorModel::BadResponse("200 body is not JSON: "@ + e)),
        Ok(d) => match d.text_at("principal"@) {
            None => Err(BrokerErrorModel::BadResponse("200 body has no `principal`"@)),
            Some(principal) => match d.text_at("ccache_b64"@) {
                None => Err(BrokerErrorModel::BadResponse("200 body has no `ccache_b64`"@)),
                Some(b64) => match encode::base64_decoded(b64) {
                    Err(e) => Err(
                        BrokerErrorModel::BadResponse("ccache_b64 is not base64: "@ + e),
                    ),
                    Ok(ccache) => Ok(TicketModel { principal, ccache }),
                },
            },
        },
    }
}

/// The ticket in the body of an answer, given what parsing made of it.
pub fn ticket_of(body: &Result<Json, String>) -> (r: Result<Ticket, BrokerError>)
    ensures
        ({
            let want = ticket_in(
                match *body {
                    Ok(j) => Ok(json::doc(j)),
                    Err(e) => Err(e@),
                },
            );
            match r {
                Ok(t) => want == Ok::<TicketModel, BrokerErrorModel>(t@),
                Err(e) => want == Err::<TicketModel, BrokerErrorModel>(e@),
            }
        }),
{
    let json = match body {
        Ok(j) => j,
        Err(e) => {
            return Err(BrokerError::BadResponse(joined("200 body is not JSON: ", e.as_str())));
        },
    };
    let principal = match text_field(json, "principal") {
        Some(s) => s,
        None => {
            return Err(BrokerError::BadResponse("200 body has no `principal`".to_owned()));
        },
    };
    let b64 = match text_field(json, "ccache_b64") {
        Some(s) => s,
        None => {
            return Err(BrokerError::BadResponse("200 body has no `ccache_b64`".to_owned()));
        },
    };
    match b64decode(b64.as_str()) {
        Ok(ccache) => Ok(Ticket { principal, ccache }),
        Err(e) => Err(BrokerError::BadResponse(joined("ccache_b64 is not base64: ", e.as_str()))),
    }
}

pub fn parse_ticket(text: &str) -> (r: Result<Ticket, BrokerError>)
    ensures
        match r {
            Ok(t) => ticket_in(json::json_text(text@)) == Ok::<TicketModel, BrokerErrorModel>(t@),
            Err(e) => ticket_in(json::json_text(text@)) == Err::<TicketModel, BrokerErrorModel>(e@),
        },
{
    let parsed = json::parse(text);
    ticket_of(&parsed)
}

/// The ticket in a reply.
pub open spec fn ticketed(reply: ReplyModel) -> Result<TicketModel, BrokerErrorModel> {
    match answered(reply) {
        Err(e) => Err(e),
        Ok(body) => ticket_in(json::json_text(body)),
    }
}

pub fn read_ticket(reply: Reply) -> (r: Result<Ticket, BrokerError>)
    ensures
        match r {
            Ok(t) => ticketed(reply@) == Ok::<TicketModel, BrokerErrorModel>(t@),
            Err(e) => ticketed(reply@) == Err::<TicketModel, BrokerErrorModel>(e@),
        },
{
    match receive(reply) {
        Ok(body) => parse_ticket(body.as_str()),
        Err(e) => Err(e),
    }
}

// ------------------------------------------------------------------------ laws

/// A literal identity survives the query string: whatever the target, what is
/// added to the URL holds no `|`, and nothing is added without one.
pub proof fn law_a_target_is_never_sent_raw(url: Seq<char>, target: Seq<char>)
    ensures
        aimed(url, None) == url,
        url.is_prefix_of(aimed(url, Some(target))),
        !aimed(url, Some(target)).skip(url.len() as int).contains('|'),
{
    encode::law_a_parameter_is_sent_in_safe_characters("for"@);
    encode::law_a_parameter_is_sent_in_safe_characters(target);
    reveal_strlit("?");
    let a = aimed(url, Some(target));
    assert(a.take(url.len() as int) =~= url);
    let rest = a.skip(url.len() as int);
    let name = encode::form_text("for"@);
    let value = encode::form_text(target);
    assert forall|i: int| 0 <= i < rest.len() implies rest[i] != '|' by {
        if i == 0 {
            assert(rest[i] == "?"@[0]);
        } else if i <= name.len() {
            assert(rest[i] == name[i - 1]);
        } else if i == name.len() + 1 {
            assert(rest[i] == '=');
        } else {
            assert(rest[i] == value[i - name.len() - 2]);
        }
    }
}

/// Only the fields a later exchange depends on are required of a device: whatever
/// else is missing or of another type, it is one.
pub proof fn law_only_what_an_exchange_needs_is_required(d: JsonDoc)
    ensures
        device_in(d) is Ok <==> d.text_at("grant_id"@) is Some && d.text_at("identity"@) is Some
            && d.i64_at("sign_in_required_by"@) is Some,
{
}

/// A live broker is never reported as unreachable or untrusted, and a broker that
/// could not be reached is never reported as having refused.
pub proof fn law_reachability_is_never_a_refusal(reply: ReplyModel)
    ensures
        answered(reply) matches Err(e) ==> ((e is Unreachable || e is Untrusted)
            <==> reply is Failed),
{
}

/// What a status means, and only that status; the broker's own words go with it.
pub proof fn law_what_a_status_means(status: u16, reason: Seq<char>)
    ensures
        ({
            let e = error_of(status, reason);
            &&& e is BadRequest <==> status == 400
            &&& e is InvalidProof <==> status == 401
            &&& e is NotAdmitted <==> status == 403
            &&& e is NotFound <==> status == 404
            &&& e is Conflict <==> status == 409
            &&& e is RateLimited <==> status == 429
            &&& e is ServerUnavailable <==> status == 502 || status == 503
            &&& e is Unexpected <==> !(status == 400 || status == 401 || status == 403 || status
                == 404 || status == 409 || status == 429 || status == 502 || status == 503)
            &&& e matches BrokerErrorModel::BadRequest(m) ==> m == reason
            &&& e matches BrokerErrorModel::InvalidProof(m) ==> m == reason
            &&& e matches BrokerErrorModel::NotAdmitted(m) ==> m == reason
            &&& e matches BrokerErrorModel::NotFound(m) ==> m == reason
            &&& e matches BrokerErrorModel::Conflict(m) ==> m == reason
            &&& e matches BrokerErrorModel::ServerUnavailable(m) ==> m == reason
            &&& e matches BrokerErrorModel::Unexpected(s, m) ==> s == status && m == reason
        }),
{
}

/// An answer is taken with a status of 200, 201 or 204, body and all. Any other is an error
/// of that status, in the words of its `error` member or, without one, in the body's own.
pub proof fn law_what_an_answer_is(status: u16, body: Seq<char>, f: crate::http::FailureModel, e: Seq<char>)
    ensures
        ({
            let r = answered(ReplyModel::Answered { status, body });
            &&& r is Ok <==> status == 200 || status == 201 || status == 204
            &&& r matches Ok(text) ==> text == body
            &&& r is Err && json::json_text(body) is Ok ==> ((json::json_text(body)->Ok_0).text_at(
                "error"@,
            ) matches Some(said) ==> r == Err::<Seq<char>, BrokerErrorModel>(error_of(status, said)))
            &&& r is Err && (json::json_text(body) is Err || (json::json_text(body)->Ok_0).text_at(
                "error"@,
            ) is None) ==> r == Err::<Seq<char>, BrokerErrorModel>(
                error_of(status, text::trimmed(body)),
            )
        }),
        f.untrusted ==> answered(ReplyModel::Failed(f)) == Err::<Seq<char>, BrokerErrorModel>(
            BrokerErrorModel::Untrusted(f.message),
        ),
        !f.untrusted ==> answered(ReplyModel::Failed(f)) == Err::<Seq<char>, BrokerErrorModel>(
            BrokerErrorModel::Unreachable(f.message),
        ),
        answered(ReplyModel::Unread(e)) == Err::<Seq<char>, BrokerErrorModel>(
            BrokerErrorModel::BadResponse("reading response body: "@ + e),
        ),
{
}

/// A device is what its document says, each member under its own name; the three it cannot
/// do without are missed in their order, by name.
pub proof fn law_a_device_is_what_its_document_says(d: JsonDoc)
    ensures
        device_in(d) matches Ok(v) ==> {
            &&& d.text_at("grant_id"@) == Some(v.grant_id)
            &&& d.text_at("identity"@) == Some(v.identity)
            &&& d.i64_at("sign_in_required_by"@) == Some(v.sign_in_required_by)
            &&& d.text_at("label"@) matches Some(l) ==> v.label == l
            &&& d.text_at("label"@) is None ==> v.label.len() == 0
            &&& d.i64_at("added"@) matches Some(t) ==> v.added == t
            &&& d.i64_at("added"@) is None ==> v.added == 0
            &&& v.last_seen == d.i64_at("last_seen"@)
            &&& v.clamped <==> d.bool_at("clamped"@) == Some(true)
        },
        d.text_at("grant_id"@) is None ==> device_in(d) == Err::<DeviceModel, BrokerErrorModel>(
            BrokerErrorModel::BadResponse("device response has no `"@ + "grant_id"@ + "`"@),
        ),
        d.text_at("grant_id"@) is Some && d.text_at("identity"@) is None ==> device_in(d) == Err::<
            DeviceModel,
            BrokerErrorModel,
        >(BrokerErrorModel::BadResponse("device response has no `"@ + "identity"@ + "`"@)),
        d.text_at("grant_id"@) is Some && d.text_at("identity"@) is Some && d.i64_at(
            "sign_in_required_by"@,
        ) is None ==> device_in(d) == Err::<DeviceModel, BrokerErrorModel>(
            BrokerErrorModel::BadResponse(
                "device response has no `"@ + "sign_in_required_by"@ + "`"@,
            ),
        ),
{
}

/// A list of devices has every entry of the array in its place, and one bad entry spoils it.
pub proof fn law_a_list_has_every_device(v: Seq<JsonDoc>)
    ensures
        devices_in(v) is Ok <==> forall|i: int| 0 <= i < v.len() ==> device_in(#[trigger] v[i]) is Ok,
        devices_in(v) matches Ok(all) ==> all.len() == v.len() && forall|i: int|
            0 <= i < v.len() ==> device_in(#[trigger] v[i]) == Ok::<DeviceModel, BrokerErrorModel>(
                all[i],
            ),
    decreases v.len(),
{
    if v.len() > 0 {
        let front = v.drop_last();
        law_a_list_has_every_device(front);
        assert forall|i: int| #![trigger front[i]] 0 <= i < front.len() implies front[i] == v[i] by {}
        if forall|i: int| 0 <= i < v.len() ==> device_in(#[trigger] v[i]) is Ok {
            assert forall|i: int| 0 <= i < front.len() implies device_in(#[trigger] front[i])
                is Ok by {
                assert(device_in(v[i]) is Ok);
            }
            assert(device_in(v[v.len() - 1]) is Ok);
        }
        if let Ok(all) = devices_in(v) {
            let before = devices_in(front)->Ok_0;
            assert forall|i: int| 0 <= i < v.len() implies device_in(#[trigger] v[i]) == Ok::<
                DeviceModel,
                BrokerErrorModel,
            >(all[i]) by {
                if i < front.len() {
                    assert(device_in(front[i]) == Ok::<DeviceModel, BrokerErrorModel>(before[i]));
                }
            }
        }
    }
}

/// Only the `devices` array of a list is read.
pub proof fn law_a_list_is_its_devices_array(d: JsonDoc)
    ensures
        d.array_at("devices"@) matches Some(v) ==> list_in(d) == devices_in(v),
        d.array_at("devices"@) is None ==> list_in(d) == Err::<Seq<DeviceModel>, BrokerErrorModel>(
            BrokerErrorModel::BadResponse("device list has no `devices` array"@),
        ),
{
}

/// A ticket is the principal and the cache that the answer names, the cache decoded.
pub proof fn law_a_ticket_is_what_the_answer_names(d: JsonDoc, e: Seq<char>)
    ensures
        ticket_in(Ok(d)) matches Ok(t) ==> {
            &&& d.text_at("principal"@) == Some(t.principal)
            &&& d.text_at("ccache_b64"@) matches Some(b) && encode::base64_decoded(b) == Ok::<
                Seq<u8>,
                Seq<char>,
            >(t.ccache)
        },
        ticket_in(Ok(d)) is Ok <==> d.text_at("principal"@) is Some && (d.text_at("ccache_b64"@)
            matches Some(b) && encode::base64_decoded(b) is Ok),
        ticket_in(Ok(d)) matches Err(x) ==> x is BadResponse,
        ticket_in(Err(e)) == Err::<TicketModel, BrokerErrorModel>(
            BrokerErrorModel::BadResponse("200 body is not JSON: "@ + e),
        ),
        nonce_text(Ok(d)) matches Ok(n) ==> d.text_at("nonce"@) == Some(n),
        d.text_at("nonce"@) is Some ==> nonce_text(Ok(d)) is Ok,
        d.text_at("nonce"@) is None ==> nonce_text(Ok(d)) == Err::<Seq<char>, BrokerErrorModel>(
            BrokerErrorModel::BadResponse("nonce response has no `nonce`"@),
        ),
        nonce_text(Err(e)) is Err,
{
}

/// Every answer goes the same way: an error that came instead of it is handed on, and a
/// body is read as a document of its kind.
pub proof fn law_an_error_is_handed_on(reply: ReplyModel, e: BrokerErrorModel)
    requires
        answered(reply) == Err::<Seq<char>, BrokerErrorModel>(e),
    ensures
        nonce_in(reply) == Err::<Seq<char>, BrokerErrorModel>(e),
        registered(reply) == Err::<DeviceModel, BrokerErrorModel>(e),
        listed(reply) == Err::<Seq<DeviceModel>, BrokerErrorModel>(e),
        ticketed(reply) == Err::<TicketModel, BrokerErrorModel>(e),
{
}

/// What a body that is a document is read as.
pub proof fn law_a_body_is_read_as_a_document(reply: ReplyModel, body: Seq<char>, d: JsonDoc)
    requires
        answered(reply) == Ok::<Seq<char>, BrokerErrorModel>(body),
        json::json_text(body) == Ok::<JsonDoc, Seq<char>>(d),
    ensures
        nonce_in(reply) == nonce_text(Ok(d)),
        registered(reply) == device_in(d),
        listed(reply) == list_in(d),
        ticketed(reply) == ticket_in(Ok(d)),
{
}

/// A registration names the algorithm, the key and the label, and the account where one is
/// named: each under its own name, once.
pub proof fn law_what_a_registration_names(
    alg: Seq<char>,
    key: Seq<char>,
    label: Seq<char>,
    target: Option<Seq<char>>,
)
    ensures
        ({
            let r = registration(alg, key, label, target);
            &&& r.len() == (if target is Some {
                4int
            } else {
                3int
            })
            &&& r[0] == ("alg"@, JsonDoc::Str(alg))
            &&& r[1] == ("key"@, JsonDoc::Str(key))
            &&& r[2] == ("label"@, JsonDoc::Str(label))
            &&& target matches Some(t) ==> r[3] == ("for"@, JsonDoc::Str(t))
        }),
{
}

/// A caller proves who they are with a token or with a signed assertion, under the scheme of
/// that proof; a route hangs off the broker with one slash between them; an account is named
/// in the query, encoded.
pub proof fn law_how_a_request_is_addressed(
    broker_url: Seq<char>,
    path: Seq<char>,
    target: Seq<char>,
    scheme: AuthScheme<'_>,
)
    ensures
        scheme matches AuthScheme::Bearer(t) ==> auth_header(scheme) == "Bearer "@ + t@,
        scheme matches AuthScheme::DeviceGrant(t) ==> auth_header(scheme) == "DeviceGrant "@ + t@,
        route(broker_url.push('/'), path) == route(broker_url, path),
        broker_url.len() == 0 || broker_url.last() != '/' ==> route(broker_url, path) == broker_url
            + path,
        path.is_suffix_of(route(broker_url, path)),
        aimed(path, Some(target)) == path + "?"@ + encode::form_text("for"@) + seq!['=']
            + encode::form_text(target),
{
    assert(broker_url.push('/').drop_last() =~= broker_url);
    let r = route(broker_url, path);
    assert(r.skip(r.len() - path.len()) =~= path);
}

/// An account is refused before it is sent where it is nothing, or where it is spelled as a
/// mail address and not as an identity of this scheme.
pub proof fn law_which_targets_are_refused(target: Seq<char>)
    ensures
        target_fault(target) is Some <==> text::trimmed(target).len() == 0 || (text::trimmed(
            target,
        ).contains('@') && !"kb1|"@.is_prefix_of(text::trimmed(target))),
        text::trimmed(target).len() == 0 ==> target_fault(target) == Some("empty target"@),
{
}

/// Every error says what it is and, behind that, what the broker said.
pub proof fn law_an_error_says_what_it_is(m: Seq<char>, status: u16)
    ensures
        BrokerErrorModel::BadRequest(m).says() == "broker rejected the request as malformed: "@ + m,
        BrokerErrorModel::InvalidProof(m).says() == "broker rejected the identity proof: "@ + m,
        BrokerErrorModel::NotAdmitted(m).says() == "the broker refused this account: "@ + m,
        BrokerErrorModel::NotFound(m).says() == "no such device on this account: "@ + m,
        BrokerErrorModel::Conflict(m).says() == "too many devices already authorized: "@ + m,
        BrokerErrorModel::RateLimited.says() == "broker is rate limiting; back off and retry"@,
        BrokerErrorModel::ServerUnavailable(m).says() == "broker dependency unavailable: "@ + m,
        BrokerErrorModel::Unexpected(status, m).says() == "unexpected broker status "@
            + text::decimal(status as nat) + ": "@ + m,
        BrokerErrorModel::Unreachable(m).says() == "broker unreachable: "@ + m,
        BrokerErrorModel::Untrusted(m).says() == "broker certificate not trusted: "@ + m,
        BrokerErrorModel::BadResponse(m).says() == "broker response not understood: "@ + m,
{
}

/// What contracts speak of is what the fields hold, each under its own name.
pub proof fn law_every_field_is_seen_under_its_name(t: Ticket, r: Request, d: Device)
    ensures
        t@.principal == t.principal@,
        t@.ccache == t.ccache@,
        r@.method == r.method,
        r@.url == r.url@,
        r@.authorization == text::opt_text(r.authorization),
        r@.body == text::opt_text(r.body),
        d@.grant_id == d.grant_id@,
        d@.identity == d.identity@,
        d@.label == d.label@,
        d@.added == d.added,
        d@.last_seen == d.last_seen,
        d@.sign_in_required_by == d.sign_in_required_by,
        d@.clamped == d.clamped,
{
}

} // verus!
