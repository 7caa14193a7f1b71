//! What an HTTP request came to, as far as anything is decided on it.

use crate::address;
use crate::address::host_of_url;
use crate::errors;
use crate::errors::{Cause, Chain, Untrusted, UntrustedModel};
use crate::text;
use crate::text::joined;
use vstd::prelude::*;
use vstd::string::*;

verus! {

/// How long any single request may take end to end, in seconds. A worker owns the
/// agent's only busy slot, so a request that never returns would stop every future
/// re-injection for the life of the process.
pub const REQUEST_TIMEOUT_SECS: u64 = 30;

/// A failed request, classified by the evidence there turned out to be for it.
pub struct Failure {
    /// The request and what went wrong, plus the certificate the host presented
    /// when there was one.
    pub message: String,
    /// The host answered with a certificate that validation refused.
    ///
    /// False for a TLS failure that produced no certificate at all. Reporting
    /// that as a trust problem sends its reader looking for a certificate that
    /// never existed.
    pub untrusted: bool,
}

#[verifier::ext_equal]
pub struct FailureModel {
    pub message: Seq<char>,
    pub untrusted: bool,
}

impl View for Failure {
    type V = FailureModel;

    open spec fn view(&self) -> FailureModel {
        FailureModel { message: self.message@, untrusted: self.untrusted }
    }
}

/// What a failed request is called: a trust problem only where TLS is what failed
/// and the host presented a certificate.
pub open spec fn described(
    url: Seq<char>,
    error: Seq<char>,
    tls: bool,
    peer: Option<Seq<char>>,
) -> FailureModel {
    let message = url + ": "@ + error;
    match peer {
        Some(certificate) if tls => FailureModel {
            message: message + "\n"@ + certificate,
            untrusted: true,
        },
        _ => FailureModel { message, untrusted: false },
    }
}

/// Describe a failed request. `tls` is whether it died somewhere in TLS, and
/// `peer` the certificate that a second, permissive connection was shown.
pub fn describe(url: &str, error: &str, tls: bool, peer: Option<&str>) -> (r: Failure)
    ensures
        r@ == described(url@, error@, tls, text::opt_str(peer)),
{
    let head = joined(url, ": ");
    let message = joined(head.as_str(), error);
    match peer {
        Some(certificate) => {
            if tls {
                let line = joined(message.as_str(), "\n");
                Failure { message: joined(line.as_str(), certificate), untrusted: true }
            } else {
                Failure { message, untrusted: false }
            }
        },
        None => Failure { message, untrusted: false },
    }
}

/// A status and a body, or why there is neither.
pub enum Reply {
    Answered { status: u16, body: String },
    /// The connection failed.
    Failed(Failure),
    /// The connection worked and the body could not be read.
    Unread(String),
}

#[verifier::ext_equal]
pub enum ReplyModel {
    Answered { status: u16, body: Seq<char> },
    Failed(FailureModel),
    Unread(Seq<char>),
}

impl View for Reply {
    type V = ReplyModel;

    open spec fn view(&self) -> ReplyModel {
        match *self {
            Reply::Answered { status, body } => ReplyModel::Answered { status, body: body@ },
            Reply::Failed(f) => ReplyModel::Failed(f@),
            Reply::Unread(e) => ReplyModel::Unread(e@),
        }
    }
}

/// A certificate that was refused, with the host that presented it.
pub open spec fn untrusted_at(url: Seq<char>, detail: Seq<char>) -> UntrustedModel {
    UntrustedModel { host: address::host_in(url, address::url_parse(url)), detail }
}

impl Untrusted {
    pub fn new(url: &str, detail: String) -> (r: Self)
        ensures
            r@ == untrusted_at(url@, detail@),
    {
        Untrusted { host: host_of_url(url), detail }
    }
}

/// What a `GET` that got no answer is told as.
pub open spec fn get_failure(url: Seq<char>, reply: ReplyModel) -> Seq<errors::CauseModel> {
    match reply {
        ReplyModel::Failed(f) if f.untrusted => seq![
            errors::CauseModel::Untrusted(untrusted_at(url, f.message)),
        ],
        ReplyModel::Failed(f) => errors::saying("GET "@ + f.message),
        ReplyModel::Unread(e) => errors::while_doing("reading response body"@, errors::saying(e)),
        ReplyModel::Answered { .. } => Seq::empty(),
    }
}

/// The answer to a `GET`, or why there is none.
pub fn get_text(url: &str, reply: Reply) -> (r: Result<(u16, String), Chain>)
    ensures
        r is Ok <==> reply@ is Answered,
        r matches Ok((status, body)) ==> reply@ == (ReplyModel::Answered { status, body: body@ }),
        r matches Err(e) ==> e@ == get_failure(url@, reply@),
{
    match reply {
        Reply::Answered { status, body } => Ok((status, body)),
        Reply::Failed(f) => if f.untrusted {
            // Typed rather than a message, because the tray has to tell this apart
            // from an unreachable broker.
            Err(Chain::of(Cause::Untrusted(Untrusted::new(url, f.message))))
        } else {
            Err(Chain::new(joined("GET ", f.message.as_str())))
        },
        Reply::Unread(e) => Err(Chain::new(e).context("reading response body")),
    }
}

// ------------------------------------------------------------------------ laws

/// A request that failed names its address and why. It counts as a certificate that is not
/// trusted exactly where it died in TLS and a certificate was shown, and then says which.
pub proof fn law_when_a_certificate_is_not_trusted(
    url: Seq<char>,
    error: Seq<char>,
    tls: bool,
    peer: Option<Seq<char>>,
)
    ensures
        ({
            let f = described(url, error, tls, peer);
            &&& f.untrusted <==> tls && peer is Some
            &&& f.untrusted ==> f.message == url + ": "@ + error + "\n"@ + peer->0
            &&& !f.untrusted ==> f.message == url + ": "@ + error
        }),
{
}

/// A failed fetch is told apart: a certificate that is not trusted, by the host in the
/// address; a request that failed; an answer that could not be read. An answer is none.
pub proof fn law_a_failed_fetch_is_told_apart(url: Seq<char>, f: FailureModel, e: Seq<char>, status: u16)
    ensures
        f.untrusted ==> errors::first_untrusted(get_failure(url, ReplyModel::Failed(f))) == Some(
            address::host_in(url, address::url_parse(url)),
        ),
        f.untrusted ==> errors::story(get_failure(url, ReplyModel::Failed(f))) == f.message,
        !f.untrusted ==> errors::first_untrusted(get_failure(url, ReplyModel::Failed(f))) is None
            && errors::story(get_failure(url, ReplyModel::Failed(f))) == "GET "@ + f.message,
        errors::story(get_failure(url, ReplyModel::Unread(e))) == "reading response body"@ + ": "@
            + e,
        get_failure(url, ReplyModel::Answered { status, body: e }).len() == 0,
{
    let a = get_failure(url, ReplyModel::Failed(f));
    errors::law_an_absent_cause_is_not_named(a);
    errors::law_a_story_is_told_from_the_outside_in("GET "@ + f.message, e);
    errors::law_a_story_is_told_from_the_outside_in("reading response body"@, e);
    if f.untrusted {
        assert(a[0] is Untrusted);
        text::law_parts_are_joined_in_order(Seq::empty(), f.message, e, ": "@);
        assert(errors::said_by(a) =~= seq![f.message]);
    }
}

} // verus!
