//! What a failure is called in front of the user: an error from one leg of the
//! sign-in, turned into the fault the icon shows and the sentence beside it.
//!
//! A sibling of [`crate::describe`], and the division is what each one reads. That
//! decides what a *state* means; this decides what a *failure* means.
//!
//! Every sentence takes one form: **`<mechanism state>: <what it means for you>`**.
//! The tag is the sysadmin's handle and the sentence is the end user's
//! consequence, so no message here predicts that an action will fail and none
//! promises a fix.

use super::host_of;
use crate::broker::{
    BrokerError, BrokerErrorModel, REFUSED_GRANTS_DISABLED, REFUSED_NOT_DELEGATE,
    REFUSED_NOT_GRANTED,
};
use crate::describe::Fault;
use crate::errors;
use crate::errors::{untrusted_host, CauseModel, Chain};
use crate::sentence;
use crate::sentence::{
    say, say_about, say_about2, text_value, Filler, FillerModel, Phrase, Sentence, SentenceModel,
    Slot,
};
use crate::text;
use crate::text::{decimal_of, join_all, joined, same};
use vstd::prelude::*;
use vstd::string::*;

verus! {

/// A failure as the surface needs it: what class it belongs to, and the sentence.
/// No class is an absence rather than a breakage -- nothing to be silent with, or a
/// machine waiting to be authorized -- which the blocker list already explains and
/// which must not be dressed in fault ink.
pub struct Failure {
    pub fault: Option<Fault>,
    pub message: Sentence,
}

#[verifier::ext_equal]
pub struct FailureModel {
    pub fault: Option<Fault>,
    pub message: SentenceModel,
}

impl View for Failure {
    type V = FailureModel;

    open spec fn view(&self) -> FailureModel {
        FailureModel { fault: self.fault, message: self.message@ }
    }
}

impl Clone for Failure {
    fn clone(&self) -> (r: Self)
        ensures
            r@ == self@,
    {
        Failure { fault: self.fault, message: self.message.clone() }
    }
}

/// A failure of a class.
pub open spec fn failed(fault: Fault, message: SentenceModel) -> FailureModel {
    FailureModel { fault: Some(fault), message }
}

/// A sentence that says one more thing.
pub open spec fn with_detail(p: Phrase, detail: Seq<char>) -> SentenceModel {
    sentence::about(p, Slot::Detail, FillerModel::Text(detail))
}

/// A sentence about a broker.
pub open spec fn of_broker(p: Phrase, broker: Seq<char>, detail: Seq<char>) -> SentenceModel {
    sentence::about2(
        p,
        Slot::Broker,
        FillerModel::Text(broker),
        Slot::Detail,
        FillerModel::Text(detail),
    )
}

/// A certificate nobody trusts.
pub open spec fn distrusted(host: Seq<char>) -> FailureModel {
    failed(
        Fault::Network,
        sentence::about(Phrase::ErrTlsUntrusted, Slot::Broker, FillerModel::Text(host)),
    )
}

fn fail(fault: Fault, message: Sentence) -> (r: Failure)
    ensures
        r@ == failed(fault, message@),
{
    Failure { fault: Some(fault), message }
}

fn fail_detail(fault: Fault, p: Phrase, detail: &str) -> (r: Failure)
    ensures
        r@ == failed(fault, with_detail(p, detail@)),
{
    fail(fault, say_about(p, Slot::Detail, text_value(detail)))
}

fn distrust(host: &str) -> (r: Failure)
    ensures
        r@ == distrusted(host@),
{
    fail(Fault::Network, say_about(Phrase::ErrTlsUntrusted, Slot::Broker, text_value(host)))
}

/// What a failed discovery is. The host of a refused certificate comes from the
/// failure and not from `broker_url`, because the same call also fetches the IdP's
/// discovery document.
pub open spec fn discovery_failure(e: Seq<CauseModel>, broker_url: Seq<char>) -> FailureModel {
    match errors::first_untrusted(e) {
        Some(host) => distrusted(host),
        None => match errors::first_ambiguous(e) {
            Some(sources) => failed(
                Fault::Other,
                sentence::about2(
                    Phrase::ErrBrokerAmbiguousSource,
                    Slot::Broker,
                    FillerModel::Text(super::host_part(broker_url)),
                    Slot::Sources,
                    FillerModel::Text(text::join(sources, ", "@)),
                ),
            ),
            None => failed(
                Fault::Network,
                of_broker(
                    Phrase::ErrBrokerUnreachable,
                    super::host_part(broker_url),
                    errors::story(e),
                ),
            ),
        },
    }
}

/// Discovery is the first thing every sign-in does, so an untrusted broker
/// certificate is met here rather than at `/ticket`.
pub fn describe_discovery_error(e: &Chain, broker_url: &str) -> (r: Failure)
    ensures
        r@ == discovery_failure(e@, broker_url@),
{
    if let Some(host) = untrusted_host(e) {
        return distrust(host);
    }
    let broker = host_of(broker_url);
    // Not a network fault: the broker answered, and the address it was asked at is
    // one segment short.
    if let Some(a) = e.ambiguous() {
        let sources = join_all(&a.sources, ", ");
        return fail(
            Fault::Other,
            say_about2(
                Phrase::ErrBrokerAmbiguousSource,
                Slot::Broker,
                Filler::Text(broker),
                Slot::Sources,
                Filler::Text(sources),
            ),
        );
    }
    let story = e.message();
    fail(
        Fault::Network,
        say_about2(
            Phrase::ErrBrokerUnreachable,
            Slot::Broker,
            Filler::Text(broker),
            Slot::Detail,
            Filler::Text(story),
        ),
    )
}

/// What a failed call of the token endpoint is. `template` is the caller's
/// sentence -- a browser sign-in and a silent renewal fail at the same call and
/// mean different things -- and the typed causes outrank it.
pub open spec fn token_failure(e: Seq<CauseModel>, template: Phrase) -> FailureModel {
    match errors::first_untrusted(e) {
        Some(host) => distrusted(host),
        None => match errors::first_refused(e) {
            Some((issuer, reason)) => failed(
                Fault::Refused,
                sentence::about2(
                    Phrase::ErrIdpRefused,
                    Slot::Issuer,
                    FillerModel::Text(issuer),
                    Slot::Detail,
                    FillerModel::Text(reason),
                ),
            ),
            None => if errors::timed_out(e) {
                failed(Fault::Other, sentence::plain(Phrase::ErrSignInTimeout))
            } else {
                failed(Fault::Other, with_detail(template, errors::story(e)))
            },
        },
    }
}

pub fn describe_token_error(e: &Chain, template: Phrase) -> (r: Failure)
    ensures
        r@ == token_failure(e@, template),
{
    if let Some(host) = untrusted_host(e) {
        return distrust(host);
    }
    if let Some((issuer, reason)) = e.refused() {
        return fail(
            Fault::Refused,
            say_about2(
                Phrase::ErrIdpRefused,
                Slot::Issuer,
                text_value(issuer),
                Slot::Detail,
                text_value(reason),
            ),
        );
    }
    if e.timed_out() {
        // Nobody finished it, which is not the same as something breaking -- but it
        // is still why there is no ticket, so it keeps a fault of its own.
        return fail(Fault::Other, say(Phrase::ErrSignInTimeout));
    }
    let story = e.message();
    fail_detail(Fault::Other, template, story.as_str())
}

/// The refusals that mean the same thing wherever they arrive: the broker itself,
/// its transport, and its side of the contract.
pub open spec fn transport_failure(e: BrokerErrorModel, broker: Seq<char>) -> Option<FailureModel> {
    match e {
        BrokerErrorModel::InvalidProof(m) => Some(
            failed(Fault::Refused, of_broker(Phrase::ErrInvalidProof, broker, m)),
        ),
        BrokerErrorModel::RateLimited => Some(
            failed(Fault::Network, of_broker(Phrase::ErrRateLimited, broker, Seq::empty())),
        ),
        BrokerErrorModel::ServerUnavailable(m) => Some(
            failed(Fault::Network, of_broker(Phrase::ErrServerUnavailable, broker, m)),
        ),
        BrokerErrorModel::Unreachable(m) => Some(
            failed(Fault::Network, of_broker(Phrase::ErrBrokerUnreachable, broker, m)),
        ),
        BrokerErrorModel::Untrusted(_) => Some(
            failed(Fault::Network, of_broker(Phrase::ErrTlsUntrusted, broker, Seq::empty())),
        ),
        BrokerErrorModel::BadRequest(m) => Some(
            failed(Fault::Other, of_broker(Phrase::ErrBadRequest, broker, m)),
        ),
        BrokerErrorModel::BadResponse(m) => Some(
            failed(Fault::Other, of_broker(Phrase::ErrBrokerProtocol, broker, m)),
        ),
        BrokerErrorModel::Unexpected(code, m) => Some(
            failed(
                Fault::Other,
                of_broker(
                    Phrase::ErrBrokerProtocol,
                    broker,
                    text::decimal(code as nat) + ": "@ + m,
                ),
            ),
        ),
        BrokerErrorModel::NotAdmitted(_) => None,
        BrokerErrorModel::NotFound(_) => None,
        BrokerErrorModel::Conflict(_) => None,
    }
}

fn fail_broker(fault: Fault, p: Phrase, broker: &str, detail: String) -> (r: Failure)
    ensures
        r@ == failed(fault, of_broker(p, broker@, detail@)),
{
    fail(
        fault,
        say_about2(p, Slot::Broker, text_value(broker), Slot::Detail, Filler::Text(detail)),
    )
}

fn transport(e: &BrokerError, broker: &str) -> (r: Option<Failure>)
    ensures
        transport_failure(e@, broker@) == match r {
            Some(f) => Some(f@),
            None => None,
        },
{
    match e {
        BrokerError::InvalidProof(m) => Some(
            fail_broker(Fault::Refused, Phrase::ErrInvalidProof, broker, m.clone()),
        ),
        BrokerError::RateLimited => {
            let none = String::new();
            assert(none@ =~= Seq::empty());
            Some(fail_broker(Fault::Network, Phrase::ErrRateLimited, broker, none))
        },
        BrokerError::ServerUnavailable(m) => Some(
            fail_broker(Fault::Network, Phrase::ErrServerUnavailable, broker, m.clone()),
        ),
        BrokerError::Unreachable(m) => Some(
            fail_broker(Fault::Network, Phrase::ErrBrokerUnreachable, broker, m.clone()),
        ),
        // No detail: it is a certificate, and it is already in the log.
        BrokerError::Untrusted(_) => {
            let none = String::new();
            assert(none@ =~= Seq::empty());
            Some(fail_broker(Fault::Network, Phrase::ErrTlsUntrusted, broker, none))
        },
        // Ours, not the user's: a request this client built was rejected as
        // malformed.
        BrokerError::BadRequest(m) => Some(
            fail_broker(Fault::Other, Phrase::ErrBadRequest, broker, m.clone()),
        ),
        BrokerError::BadResponse(m) => Some(
            fail_broker(Fault::Other, Phrase::ErrBrokerProtocol, broker, m.clone()),
        ),
        BrokerError::Unexpected(code, m) => {
            let n = decimal_of(*code as u64);
            let a = joined(n.as_str(), ": ");
            let detail = joined(a.as_str(), m.as_str());
            Some(fail_broker(Fault::Other, Phrase::ErrBrokerProtocol, broker, detail))
        },
        _ => None,
    }
}

/// What a refused registration is. The device cap gets its own message: it is the
/// one failure the person at the keyboard can clear themselves.
pub open spec fn grant_failure(e: BrokerErrorModel, broker: Seq<char>) -> FailureModel {
    match e {
        BrokerErrorModel::Conflict(m) => failed(
            Fault::GrantRefused,
            with_detail(Phrase::ErrGrantTooMany, m),
        ),
        BrokerErrorModel::NotAdmitted(m) => failed(
            Fault::GrantRefused,
            with_detail(
                if m == REFUSED_NOT_DELEGATE@ {
                    Phrase::ErrGrantNotDelegate
                } else {
                    Phrase::ErrGrantNotAllowed
                },
                m,
            ),
        ),
        _ => match transport_failure(e, broker) {
            Some(f) => f,
            None => failed(Fault::Other, with_detail(Phrase::ErrGrantFailed, e.says())),
        },
    }
}

pub fn describe_grant_error(e: &BrokerError, broker: &str) -> (r: Failure)
    ensures
        r@ == grant_failure(e@, broker@),
{
    match e {
        BrokerError::Conflict(m) => fail_detail(
            Fault::GrantRefused,
            Phrase::ErrGrantTooMany,
            m.as_str(),
        ),
        // The one refusal that is about somebody *else's* account: the sign-in
        // worked and this person is admitted, they are simply not a delegate of the
        // account this machine names.
        BrokerError::NotAdmitted(m) => if same(m.as_str(), REFUSED_NOT_DELEGATE) {
            fail_detail(Fault::GrantRefused, Phrase::ErrGrantNotDelegate, m.as_str())
        } else {
            fail_detail(Fault::GrantRefused, Phrase::ErrGrantNotAllowed, m.as_str())
        },
        other => match transport(other, broker) {
            Some(f) => f,
            None => {
                let said = other.message();
                fail_detail(Fault::Other, Phrase::ErrGrantFailed, said.as_str())
            },
        },
    }
}

/// A ticket that was not obtained, or not injected.
pub enum InjectError {
    Broker(BrokerError),
    /// The ccache would not parse, or the operating system refused the submission.
    Local(String),
}

#[verifier::ext_equal]
pub enum InjectErrorModel {
    Broker(BrokerErrorModel),
    Local(Seq<char>),
}

impl View for InjectError {
    type V = InjectErrorModel;

    open spec fn view(&self) -> InjectErrorModel {
        match *self {
            InjectError::Broker(e) => InjectErrorModel::Broker(e@),
            InjectError::Local(s) => InjectErrorModel::Local(s@),
        }
    }
}

/// What a failed injection is. The distinction that matters: a 403 means re-trying
/// will not help -- only an administrator can -- while a 5xx or a transport error
/// is worth retrying.
pub open spec fn inject_failure(e: InjectErrorModel, broker: Seq<char>) -> FailureModel {
    match e {
        InjectErrorModel::Local(s) => failed(Fault::Other, with_detail(Phrase::ErrInternal, s)),
        InjectErrorModel::Broker(BrokerErrorModel::NotAdmitted(m)) => {
            if m == REFUSED_NOT_GRANTED@ {
                failed(Fault::GrantRefused, with_detail(Phrase::ErrGrantNotAllowed, m))
            } else if m == REFUSED_GRANTS_DISABLED@ {
                failed(Fault::GrantRefused, sentence::plain(Phrase::ErrGrantDisabled))
            } else {
                failed(Fault::Refused, with_detail(Phrase::ErrNotAdmitted, m))
            }
        },
        InjectErrorModel::Broker(other) => match transport_failure(other, broker) {
            Some(f) => f,
            None => failed(Fault::Other, with_detail(Phrase::ErrInternal, other.says())),
        },
    }
}

pub fn describe_inject_error(e: &InjectError, broker: &str) -> (r: Failure)
    ensures
        r@ == inject_failure(e@, broker@),
{
    let e = match e {
        InjectError::Local(s) => {
            return fail_detail(Fault::Other, Phrase::ErrInternal, s.as_str());
        },
        InjectError::Broker(e) => e,
    };
    match e {
        // Three sentences, not one: someone refused only a device grant is
        // admitted, and a browser sign-in works for them right now.
        BrokerError::NotAdmitted(m) => if same(m.as_str(), REFUSED_NOT_GRANTED) {
            fail_detail(Fault::GrantRefused, Phrase::ErrGrantNotAllowed, m.as_str())
        } else if same(m.as_str(), REFUSED_GRANTS_DISABLED) {
            fail(Fault::GrantRefused, say(Phrase::ErrGrantDisabled))
        } else {
            fail_detail(Fault::Refused, Phrase::ErrNotAdmitted, m.as_str())
        },
        other => match transport(other, broker) {
            Some(f) => f,
            None => {
                let said = other.message();
                fail_detail(Fault::Other, Phrase::ErrInternal, said.as_str())
            },
        },
    }
}

// ------------------------------------------------------------------------ laws

/// A certificate nobody trusts is never called an unreachable broker, on any leg.
pub proof fn law_distrust_is_never_called_unreachable(
    e: Seq<CauseModel>,
    broker_url: Seq<char>,
    template: Phrase,
    m: Seq<char>,
    broker: Seq<char>,
)
    requires
        errors::first_untrusted(e) is Some,
    ensures
        discovery_failure(e, broker_url).message.phrase is ErrTlsUntrusted,
        token_failure(e, template).message.phrase is ErrTlsUntrusted,
        inject_failure(
            InjectErrorModel::Broker(BrokerErrorModel::Untrusted(m)),
            broker,
        ).message.phrase is ErrTlsUntrusted,
        grant_failure(BrokerErrorModel::Untrusted(m), broker).message.phrase is ErrTlsUntrusted,
{
}

/// Only what is worth trying again is a network fault: a broker that answered and
/// refused, whatever the reason, never is.
pub proof fn law_a_refusal_is_no_network_fault(e: BrokerErrorModel, broker: Seq<char>)
    ensures
        ({
            let retry = e is RateLimited || e is ServerUnavailable || e is Unreachable
                || e is Untrusted;
            &&& (inject_failure(InjectErrorModel::Broker(e), broker).fault == Some(Fault::Network))
                <==> retry
            &&& (grant_failure(e, broker).fault == Some(Fault::Network)) <==> retry
        }),
{
}

/// A ticket that was not exchanged is a failure of some class, never a silence.
pub proof fn law_an_exchange_failure_has_a_class(e: InjectErrorModel, broker: Seq<char>)
    ensures
        inject_failure(e, broker).fault is Some,
{
}

/// A sentence of one phrase that names a broker and says what it said.
pub open spec fn names_broker(s: SentenceModel, p: Phrase, broker: Seq<char>, said: Seq<char>) -> bool {
    &&& s.phrase == p
    &&& s.args.len() == 2
    &&& s.args[0] == (Slot::Broker, FillerModel::Text(broker))
    &&& s.args[1] == (Slot::Detail, FillerModel::Text(said))
}

/// A sentence of one phrase that says one more thing.
pub open spec fn says_more(s: SentenceModel, p: Phrase, said: Seq<char>) -> bool {
    s.phrase == p && s.args.len() == 1 && s.args[0] == (Slot::Detail, FillerModel::Text(said))
}

/// A discovery that failed is, in this order: a certificate that is not trusted, which
/// names the host that showed it; an address that several sources answer, which is no
/// fault of the network and names them; and otherwise a broker that was not reached, with
/// the whole story.
pub proof fn law_a_failed_discovery_is_told_apart(e: Seq<CauseModel>, url: Seq<char>)
    ensures
        ({
            let f = discovery_failure(e, url);
            let host = super::host_part(url);
            match (errors::first_untrusted(e), errors::first_ambiguous(e)) {
                (Some(h), _) => f.fault == Some(Fault::Network) && f.message.phrase
                    is ErrTlsUntrusted && f.message.args == seq![(Slot::Broker, FillerModel::Text(h))],
                (None, Some(sources)) => f.fault == Some(Fault::Other) && f.message.phrase
                    is ErrBrokerAmbiguousSource && f.message.args == seq![
                    (Slot::Broker, FillerModel::Text(host)),
                    (Slot::Sources, FillerModel::Text(text::join(sources, ", "@))),
                ],
                (None, None) => f.fault == Some(Fault::Network) && names_broker(
                    f.message,
                    Phrase::ErrBrokerUnreachable,
                    host,
                    errors::story(e),
                ),
            }
        }),
{
}

/// A token that was not given is, in this order: a certificate that is not trusted, an
/// authority that said no, a sign-in that nobody finished, and otherwise what the caller
/// calls it, with the whole story. Only the first is a network fault, and only the second a
/// refusal.
pub proof fn law_a_failed_token_is_told_apart(e: Seq<CauseModel>, p: Phrase)
    ensures
        ({
            let f = token_failure(e, p);
            match (errors::first_untrusted(e), errors::first_refused(e)) {
                (Some(h), _) => f.fault == Some(Fault::Network) && f.message.phrase
                    is ErrTlsUntrusted && f.message.args == seq![(Slot::Broker, FillerModel::Text(h))],
                (None, Some((issuer, reason))) => f.fault == Some(Fault::Refused)
                    && f.message.phrase is ErrIdpRefused && f.message.args == seq![
                    (Slot::Issuer, FillerModel::Text(issuer)),
                    (Slot::Detail, FillerModel::Text(reason)),
                ],
                (None, None) => f.fault == Some(Fault::Other) && (if errors::timed_out(e) {
                    f.message.phrase is ErrSignInTimeout && f.message.args.len() == 0
                } else {
                    says_more(f.message, p, errors::story(e))
                }),
            }
        }),
{
}

/// What the broker answered a ticket with, told apart: who is worth trying again, who was
/// refused and why, and what is this client's own trouble. A grant that is refused is
/// refused as a grant.
pub proof fn law_a_failed_exchange_is_told_apart(e: BrokerErrorModel, b: Seq<char>)
    ensures
        ({
            let f = inject_failure(InjectErrorModel::Broker(e), b);
            match e {
                BrokerErrorModel::InvalidProof(m) => f.fault == Some(Fault::Refused)
                    && names_broker(f.message, Phrase::ErrInvalidProof, b, m),
                BrokerErrorModel::RateLimited => f.fault == Some(Fault::Network) && names_broker(
                    f.message,
                    Phrase::ErrRateLimited,
                    b,
                    Seq::empty(),
                ),
                BrokerErrorModel::ServerUnavailable(m) => f.fault == Some(Fault::Network)
                    && names_broker(f.message, Phrase::ErrServerUnavailable, b, m),
                BrokerErrorModel::Unreachable(m) => f.fault == Some(Fault::Network)
                    && names_broker(f.message, Phrase::ErrBrokerUnreachable, b, m),
                BrokerErrorModel::Untrusted(_) => f.fault == Some(Fault::Network) && names_broker(
                    f.message,
                    Phrase::ErrTlsUntrusted,
                    b,
                    Seq::empty(),
                ),
                BrokerErrorModel::BadRequest(m) => f.fault == Some(Fault::Other) && names_broker(
                    f.message,
                    Phrase::ErrBadRequest,
                    b,
                    m,
                ),
                BrokerErrorModel::BadResponse(m) => f.fault == Some(Fault::Other) && names_broker(
                    f.message,
                    Phrase::ErrBrokerProtocol,
                    b,
                    m,
                ),
                BrokerErrorModel::Unexpected(code, m) => f.fault == Some(Fault::Other)
                    && names_broker(
                    f.message,
                    Phrase::ErrBrokerProtocol,
                    b,
                    text::decimal(code as nat) + ": "@ + m,
                ),
                BrokerErrorModel::NotAdmitted(m) => if m == "account may not authorize a device"@ {
                    f.fault == Some(Fault::GrantRefused) && says_more(
                        f.message,
                        Phrase::ErrGrantNotAllowed,
                        m,
                    )
                } else if m == "device grants are not enabled"@ {
                    f.fault == Some(Fault::GrantRefused) && f.message.phrase is ErrGrantDisabled
                } else {
                    f.fault == Some(Fault::Refused) && says_more(
                        f.message,
                        Phrase::ErrNotAdmitted,
                        m,
                    )
                },
                BrokerErrorModel::NotFound(_) | BrokerErrorModel::Conflict(_) => f.fault == Some(
                    Fault::Other,
                ) && says_more(f.message, Phrase::ErrInternal, e.says()),
            }
        }),
{
}

/// What the broker answered a registration with: a full set of devices and a refusal are
/// the grant's, and name themselves; anything a ticket could have met too is called what it
/// is called there.
pub proof fn law_a_failed_registration_is_told_apart(e: BrokerErrorModel, b: Seq<char>)
    ensures
        ({
            let f = grant_failure(e, b);
            match e {
                BrokerErrorModel::Conflict(m) => f.fault == Some(Fault::GrantRefused) && says_more(
                    f.message,
                    Phrase::ErrGrantTooMany,
                    m,
                ),
                BrokerErrorModel::NotAdmitted(m) => f.fault == Some(Fault::GrantRefused)
                    && says_more(
                    f.message,
                    if m == "you may not authorize a device for that account"@ {
                        Phrase::ErrGrantNotDelegate
                    } else {
                        Phrase::ErrGrantNotAllowed
                    },
                    m,
                ),
                BrokerErrorModel::NotFound(_) => f.fault == Some(Fault::Other) && says_more(
                    f.message,
                    Phrase::ErrGrantFailed,
                    e.says(),
                ),
                _ => f == inject_failure(InjectErrorModel::Broker(e), b),
            }
        }),
{
}

} // verus!
