//! What a sign-in worker does next.
//!
//! A run alternates between work only the outside can do -- a request, a browser,
//! the platform's credential store, a ticket cache -- and the decisions between
//! them. The decisions are here: [`Run::first`] and [`Run::next`] say what to do,
//! and whoever does it hands back what came of it.

use super::failure;
use super::failure::{
    describe_discovery_error, describe_grant_error, describe_inject_error, describe_token_error,
    Failure, FailureModel, InjectError, InjectErrorModel,
};
use super::host_of;
use super::worker::{Event, Flags, Injected, InjectedModel};
use crate::address::source_name;
use crate::broker::{
    BrokerError, BrokerErrorModel, REFUSED_GRANTS_DISABLED, REFUSED_NOT_GRANTED,
};
use crate::config::{Grant, GrantModel};
use crate::describe::Fault;
use crate::discovery::{BrokerConfig, BrokerModel};
use crate::errors::{CauseModel, Chain};
use crate::sentence;
use crate::sentence::{say, say_about, text_value, FillerModel, Phrase, Slot};
use crate::text;
use crate::text::{copied, same};
use vstd::prelude::*;
use vstd::string::*;

verus! {

/// What a token endpoint handed out.
pub struct Tokens {
    pub access_token: String,
    pub refresh_token: Option<String>,
}

#[verifier::ext_equal]
pub struct TokensModel {
    pub access_token: Seq<char>,
    pub refresh_token: Option<Seq<char>>,
}

impl View for Tokens {
    type V = TokensModel;

    open spec fn view(&self) -> TokensModel {
        TokensModel {
            access_token: self.access_token@,
            refresh_token: text::opt_text(self.refresh_token),
        }
    }
}

/// A grant that was not created.
pub enum GrantError {
    Broker(BrokerError),
    /// The key could not be made, opened or used.
    Local(String),
}

#[verifier::ext_equal]
pub enum GrantErrorModel {
    Broker(BrokerErrorModel),
    Local(Seq<char>),
}

impl View for GrantError {
    type V = GrantErrorModel;

    open spec fn view(&self) -> GrantErrorModel {
        match *self {
            GrantError::Broker(e) => GrantErrorModel::Broker(e@),
            GrantError::Local(s) => GrantErrorModel::Local(s@),
        }
    }
}

/// What the platform's own credential store came up with.
pub enum NativeToken {
    Token(String),
    /// It cannot serve this request. Not an error: the browser is what is left.
    Unavailable,
}

impl View for NativeToken {
    type V = Option<Seq<char>>;

    open spec fn view(&self) -> Option<Seq<char>> {
        match *self {
            NativeToken::Token(t) => Some(t@),
            NativeToken::Unavailable => None,
        }
    }
}

/// How a run ended.
pub enum Ending {
    SignedIn { injected: Injected, config: BrokerConfig, via_grant: bool },
    Authorized(Grant),
    Cancelled,
    Failed(Failure),
}

#[verifier::ext_equal]
pub enum EndingModel {
    SignedIn { injected: InjectedModel, config: BrokerModel, via_grant: bool },
    Authorized(GrantModel),
    Cancelled,
    Failed(FailureModel),
}

impl View for Ending {
    type V = EndingModel;

    open spec fn view(&self) -> EndingModel {
        match *self {
            Ending::SignedIn { injected, config, via_grant } => EndingModel::SignedIn {
                injected: injected@,
                config: config@,
                via_grant,
            },
            Ending::Authorized(g) => EndingModel::Authorized(g@),
            Ending::Cancelled => EndingModel::Cancelled,
            Ending::Failed(f) => EndingModel::Failed(f@),
        }
    }
}

/// What to do next.
pub enum Step {
    /// Discover the broker at this address.
    Discover(String),
    /// Exchange this machine's grant for a ticket at this base, and inject it.
    ExchangeGrant(String),
    /// Ask the platform's own credential store, silently.
    Native,
    /// Redeem this refresh token.
    Refresh(String),
    /// Sign in through a browser.
    Browser,
    /// Exchange an access token for a ticket at a base, and inject it.
    Exchange { base: String, token: String },
    /// Register this machine's key at a base, for a target if there is one.
    Register { base: String, token: String, audience: String, target: Option<String> },
    Done(Ending),
}

#[verifier::ext_equal]
pub enum StepModel {
    Discover(Seq<char>),
    ExchangeGrant(Seq<char>),
    Native,
    Refresh(Seq<char>),
    Browser,
    Exchange { base: Seq<char>, token: Seq<char> },
    Register {
        base: Seq<char>,
        token: Seq<char>,
        audience: Seq<char>,
        target: Option<Seq<char>>,
    },
    Done(EndingModel),
}

impl View for Step {
    type V = StepModel;

    open spec fn view(&self) -> StepModel {
        match *self {
            Step::Discover(s) => StepModel::Discover(s@),
            Step::ExchangeGrant(s) => StepModel::ExchangeGrant(s@),
            Step::Native => StepModel::Native,
            Step::Refresh(s) => StepModel::Refresh(s@),
            Step::Browser => StepModel::Browser,
            Step::Exchange { base, token } => StepModel::Exchange { base: base@, token: token@ },
            Step::Register { base, token, audience, target } => StepModel::Register {
                base: base@,
                token: token@,
                audience: audience@,
                target: text::opt_text(target),
            },
            Step::Done(e) => StepModel::Done(e@),
        }
    }
}

/// What came of a step.
pub enum Report {
    Discovered(Result<BrokerConfig, Chain>),
    GrantExchanged(Result<Injected, InjectError>),
    Native(NativeToken),
    Refreshed(Result<Tokens, Chain>),
    /// Tokens, or `None` where the user cancelled.
    Browsed(Result<Option<Tokens>, Chain>),
    Exchanged(Result<Injected, InjectError>),
    Registered(Result<Grant, GrantError>),
}

#[verifier::ext_equal]
pub enum ReportModel {
    Discovered(Result<BrokerModel, Seq<CauseModel>>),
    GrantExchanged(Result<InjectedModel, InjectErrorModel>),
    Native(Option<Seq<char>>),
    Refreshed(Result<TokensModel, Seq<CauseModel>>),
    Browsed(Result<Option<TokensModel>, Seq<CauseModel>>),
    Exchanged(Result<InjectedModel, InjectErrorModel>),
    Registered(Result<GrantModel, GrantErrorModel>),
}

impl View for Report {
    type V = ReportModel;

    open spec fn view(&self) -> ReportModel {
        match *self {
            Report::Discovered(Ok(c)) => ReportModel::Discovered(Ok(c@)),
            Report::Discovered(Err(e)) => ReportModel::Discovered(Err(e@)),
            Report::GrantExchanged(Ok(i)) => ReportModel::GrantExchanged(Ok(i@)),
            Report::GrantExchanged(Err(e)) => ReportModel::GrantExchanged(Err(e@)),
            Report::Native(t) => ReportModel::Native(t@),
            Report::Refreshed(Ok(t)) => ReportModel::Refreshed(Ok(t@)),
            Report::Refreshed(Err(e)) => ReportModel::Refreshed(Err(e@)),
            Report::Browsed(Ok(Some(t))) => ReportModel::Browsed(Ok(Some(t@))),
            Report::Browsed(Ok(None)) => ReportModel::Browsed(Ok(None)),
            Report::Browsed(Err(e)) => ReportModel::Browsed(Err(e@)),
            Report::Exchanged(Ok(i)) => ReportModel::Exchanged(Ok(i@)),
            Report::Exchanged(Err(e)) => ReportModel::Exchanged(Err(e@)),
            Report::Registered(Ok(g)) => ReportModel::Registered(Ok(g@)),
            Report::Registered(Err(e)) => ReportModel::Registered(Err(e@)),
        }
    }
}

/// One run of a worker: a sign-in, or the authorization of this machine.
pub struct Run {
    pub broker: String,
    /// The IdP login *is* the authorization, so authorizing runs the ordinary
    /// sign-in and registers the key on the token it produces.
    pub authorizing: bool,
    /// Nothing may open a window.
    pub silent: bool,
    /// The platform has a credential store, and it may be asked.
    pub use_native: bool,
    /// This machine holds a grant.
    pub granted: bool,
    /// Whom this machine authorizes itself for.
    pub pin: Option<String>,
    /// The refresh token in memory.
    pub refresh_token: Option<String>,
    pub config: Option<BrokerConfig>,
    /// Why the grant did not work, when that is a policy answer rather than a dead
    /// key.
    pub refused: Option<Failure>,
    /// What the run found out besides how it ended.
    pub flags: Flags,
}

#[verifier::ext_equal]
pub struct RunModel {
    pub broker: Seq<char>,
    pub authorizing: bool,
    pub silent: bool,
    pub use_native: bool,
    pub granted: bool,
    pub pin: Option<Seq<char>>,
    pub refresh_token: Option<Seq<char>>,
    pub config: Option<BrokerModel>,
    pub refused: Option<FailureModel>,
    pub flags: Flags,
}

impl View for Run {
    type V = RunModel;

    open spec fn view(&self) -> RunModel {
        RunModel {
            broker: self.broker@,
            authorizing: self.authorizing,
            silent: self.silent,
            use_native: self.use_native,
            granted: self.granted,
            pin: text::opt_text(self.pin),
            refresh_token: text::opt_text(self.refresh_token),
            config: match self.config {
                Some(c) => Some(c@),
                None => None,
            },
            refused: match self.refused {
                Some(f) => Some(f@),
                None => None,
            },
            flags: self.flags,
        }
    }
}

/// A run that ends in a failure.
pub open spec fn ends_failed(f: FailureModel) -> StepModel {
    StepModel::Done(EndingModel::Failed(f))
}

impl RunModel {
    /// Where the discovered broker's routes are.
    pub open spec fn base(self) -> Seq<char> {
        self.config->0.base_url
    }

    /// Past the platform's own store: a silent run redeems the refresh token it
    /// has, or says what it lacks; any other goes to the browser.
    pub open spec fn past_native(self) -> StepModel {
        if !self.silent {
            StepModel::Browser
        } else {
            match self.refresh_token {
                Some(t) => StepModel::Refresh(t),
                None => ends_failed(
                    FailureModel {
                        fault: None,
                        message: sentence::plain(
                            if self.use_native {
                                Phrase::ErrWamEmpty
                            } else {
                                Phrase::ErrBrowserRequired
                            },
                        ),
                    },
                ),
            }
        }
    }

    /// The first step towards a token.
    pub open spec fn towards_token(self) -> StepModel {
        if self.use_native {
            StepModel::Native
        } else {
            self.past_native()
        }
    }

    /// Past the grant: everything from here on gets a ticket for whoever signs in,
    /// and on a pinned machine that is the wrong person by construction.
    pub open spec fn past_grant(self) -> StepModel {
        match self.pin {
            Some(target) => ends_failed(
                match self.refused {
                    Some(f) => f,
                    None => FailureModel {
                        fault: None,
                        message: sentence::about(
                            Phrase::ErrGrantReauthorize,
                            Slot::Target,
                            FillerModel::Text(target),
                        ),
                    },
                },
            ),
            None => self.towards_token(),
        }
    }

    /// What a token is for.
    pub open spec fn with_token(self, token: Seq<char>) -> StepModel {
        if self.authorizing {
            StepModel::Register {
                base: self.base(),
                token,
                audience: self.config->0.device_grant.audience,
                target: self.pin,
            }
        } else {
            StepModel::Exchange { base: self.base(), token }
        }
    }

    /// The end of a run with a ticket in the cache.
    pub open spec fn injected(self, injected: InjectedModel, via_grant: bool) -> StepModel {
        StepModel::Done(EndingModel::SignedIn { injected, config: self.config->0, via_grant })
    }

    pub open spec fn after_discovery(self, r: Result<BrokerModel, Seq<CauseModel>>) -> (
        RunModel,
        StepModel,
    ) {
        match r {
            Err(e) => (self, ends_failed(failure::discovery_failure(e, self.broker))),
            Ok(c) => {
                let s = RunModel { config: Some(c), ..self };
                let step = if !self.authorizing {
                    if self.granted {
                        StepModel::ExchangeGrant(c.base_url)
                    } else {
                        s.past_grant()
                    }
                } else if c.device_grant.is_enabled() {
                    s.towards_token()
                } else {
                    ends_failed(
                        failure::failed(
                            Fault::GrantRefused,
                            sentence::plain(Phrase::ErrGrantDisabled),
                        ),
                    )
                };
                (s, step)
            },
        }
    }

    /// Three answers fall through to a sign-in: a refused proof, whose fix a
    /// browser is, and the two policy answers that say the grant is finished while
    /// the person can still sign in that minute. Only the first means the grant is
    /// dead: the others are the operator's to undo.
    pub open spec fn after_grant(self, r: Result<InjectedModel, InjectErrorModel>) -> (
        RunModel,
        StepModel,
    ) {
        match r {
            Ok(i) => (self, self.injected(i, true)),
            Err(InjectErrorModel::Broker(BrokerErrorModel::NotAdmitted(why))) if why
                == REFUSED_GRANTS_DISABLED@ || why == REFUSED_NOT_GRANTED@ => {
                let s = RunModel {
                    refused: Some(
                        failure::failed(
                            Fault::GrantRefused,
                            failure::with_detail(Phrase::ErrNotAdmitted, why),
                        ),
                    ),
                    ..self
                };
                (s, s.past_grant())
            },
            Err(InjectErrorModel::Broker(BrokerErrorModel::InvalidProof(_))) => {
                let s = RunModel { flags: Flags { grant_stale: true, ..self.flags }, ..self };
                (s, s.past_grant())
            },
            Err(e) => (
                self,
                ends_failed(failure::inject_failure(e, super::host_part(self.base()))),
            ),
        }
    }

    pub open spec fn after_refresh(self, r: Result<TokensModel, Seq<CauseModel>>) -> (
        RunModel,
        StepModel,
    ) {
        match r {
            Err(e) => (
                self,
                ends_failed(failure::token_failure(e, Phrase::ErrSilentRefresh)),
            ),
            Ok(t) => {
                let s = RunModel {
                    refresh_token: if t.refresh_token is Some {
                        t.refresh_token
                    } else {
                        self.refresh_token
                    },
                    ..self
                };
                (s, s.with_token(t.access_token))
            },
        }
    }

    pub open spec fn after_browser(self, r: Result<Option<TokensModel>, Seq<CauseModel>>) -> (
        RunModel,
        StepModel,
    ) {
        match r {
            Err(e) => (self, ends_failed(failure::token_failure(e, Phrase::ErrSignIn))),
            Ok(None) => (self, StepModel::Done(EndingModel::Cancelled)),
            Ok(Some(t)) => {
                let s = RunModel {
                    refresh_token: t.refresh_token,
                    flags: Flags { new_browser_session: true, ..self.flags },
                    ..self
                };
                (s, s.with_token(t.access_token))
            },
        }
    }

    pub open spec fn after_registration(self, r: Result<GrantModel, GrantErrorModel>) -> StepModel {
        match r {
            Ok(g) => StepModel::Done(EndingModel::Authorized(g)),
            Err(GrantErrorModel::Broker(e)) => ends_failed(
                failure::grant_failure(e, super::host_part(self.base())),
            ),
            Err(GrantErrorModel::Local(s)) => ends_failed(
                failure::failed(Fault::Other, failure::with_detail(Phrase::ErrGrantKey, s)),
            ),
        }
    }

    /// The run and what to do, after a report.
    pub open spec fn after(self, report: ReportModel) -> (RunModel, StepModel) {
        match report {
            ReportModel::Discovered(r) => self.after_discovery(r),
            ReportModel::GrantExchanged(r) => self.after_grant(r),
            ReportModel::Native(Some(t)) => (self, self.with_token(t)),
            ReportModel::Native(None) => (self, self.past_native()),
            ReportModel::Refreshed(r) => self.after_refresh(r),
            ReportModel::Browsed(r) => self.after_browser(r),
            ReportModel::Exchanged(Ok(i)) => (self, self.injected(i, false)),
            ReportModel::Exchanged(Err(e)) => (
                self,
                ends_failed(failure::inject_failure(e, super::host_part(self.base()))),
            ),
            ReportModel::Registered(r) => (self, self.after_registration(r)),
        }
    }
}

/// Whether a report is one that a step asked for.
pub open spec fn answers(step: StepModel, report: ReportModel) -> bool {
    match report {
        ReportModel::Discovered(_) => step is Discover,
        ReportModel::GrantExchanged(_) => step is ExchangeGrant,
        ReportModel::Native(_) => step is Native,
        ReportModel::Refreshed(_) => step is Refresh,
        ReportModel::Browsed(_) => step is Browser,
        ReportModel::Exchanged(_) => step is Exchange,
        ReportModel::Registered(_) => step is Register,
    }
}

impl Run {
    /// A run of the sign-in worker. Silent prefers the in-memory refresh token and
    /// never opens a browser on its own.
    pub fn sign_in(
        broker: String,
        silent: bool,
        use_native: bool,
        granted: bool,
        pin: Option<String>,
        refresh_token: Option<String>,
    ) -> (r: Self)
        ensures
            r@ == (RunModel {
                broker: broker@,
                authorizing: false,
                silent,
                use_native,
                granted,
                pin: text::opt_text(pin),
                refresh_token: text::opt_text(refresh_token),
                config: None,
                refused: None,
                flags: Flags { grant_stale: false, new_browser_session: false },
            }),
    {
        Run {
            broker,
            authorizing: false,
            silent,
            use_native,
            granted,
            pin,
            refresh_token,
            config: None,
            refused: None,
            flags: Flags { grant_stale: false, new_browser_session: false },
        }
    }

    /// A run of the authorize worker. Never silent: a device grant is the user
    /// authorizing *this machine*, and authorizing it needs them to have just
    /// proved who they are.
    pub fn authorize(broker: String, use_native: bool, target: Option<String>) -> (r: Self)
        ensures
            r@ == (RunModel {
                broker: broker@,
                authorizing: true,
                silent: false,
                use_native,
                granted: false,
                pin: text::opt_text(target),
                refresh_token: None,
                config: None,
                refused: None,
                flags: Flags { grant_stale: false, new_browser_session: false },
            }),
    {
        Run {
            broker,
            authorizing: true,
            silent: false,
            use_native,
            granted: false,
            pin: target,
            refresh_token: None,
            config: None,
            refused: None,
            flags: Flags { grant_stale: false, new_browser_session: false },
        }
    }

    /// What to do first.
    pub fn first(&self) -> (r: Step)
        ensures
            r@ == StepModel::Discover(self@.broker),
    {
        Step::Discover(self.broker.clone())
    }

    fn discovered(&self) -> (r: &BrokerConfig)
        requires
            self@.config is Some,
        ensures
            r@ == self@.config->0,
    {
        self.config.as_ref().unwrap()
    }

    fn base(&self) -> (r: String)
        requires
            self@.config is Some,
        ensures
            r@ == self@.base(),
    {
        self.discovered().base_url.clone()
    }

    fn past_native(&self) -> (r: Step)
        ensures
            r@ == self@.past_native(),
    {
        if !self.silent {
            return Step::Browser;
        }
        match &self.refresh_token {
            Some(t) => Step::Refresh(t.clone()),
            // Nothing failed here: this machine simply has nothing to be silent
            // with. The two sentences differ by whether a mechanism was tried.
            None => Step::Done(
                Ending::Failed(
                    Failure {
                        fault: None,
                        message: say(
                            if self.use_native {
                                Phrase::ErrWamEmpty
                            } else {
                                Phrase::ErrBrowserRequired
                            },
                        ),
                    },
                ),
            ),
        }
    }

    fn towards_token(&self) -> (r: Step)
        ensures
            r@ == self@.towards_token(),
    {
        if self.use_native {
            Step::Native
        } else {
            self.past_native()
        }
    }

    fn past_grant(&self) -> (r: Step)
        ensures
            r@ == self@.past_grant(),
    {
        match &self.pin {
            Some(target) => Step::Done(
                Ending::Failed(
                    match &self.refused {
                        Some(f) => f.clone(),
                        // No fault where nothing broke: a delegated machine with
                        // no grant is waiting to be authorized.
                        None => Failure {
                            fault: None,
                            message: say_about(
                                Phrase::ErrGrantReauthorize,
                                Slot::Target,
                                text_value(target.as_str()),
                            ),
                        },
                    },
                ),
            ),
            None => self.towards_token(),
        }
    }

    fn with_token(&self, token: String) -> (r: Step)
        requires
            self@.config is Some,
        ensures
            r@ == self@.with_token(token@),
    {
        if self.authorizing {
            Step::Register {
                base: self.base(),
                token,
                audience: self.discovered().device_grant.audience.clone(),
                target: copied(&self.pin),
            }
        } else {
            Step::Exchange { base: self.base(), token }
        }
    }

    fn injected(&self, injected: Injected, via_grant: bool) -> (r: Step)
        requires
            self@.config is Some,
        ensures
            r@ == self@.injected(injected@, via_grant),
    {
        Step::Done(
            Ending::SignedIn { injected, config: self.discovered().clone(), via_grant },
        )
    }

    fn inject_failed(&self, e: &InjectError) -> (r: Step)
        requires
            self@.config is Some,
        ensures
            r@ == ends_failed(failure::inject_failure(e@, super::host_part(self@.base()))),
    {
        let base = self.base();
        let broker = host_of(base.as_str());
        Step::Done(Ending::Failed(describe_inject_error(e, broker.as_str())))
    }

    fn on_discovered(&mut self, r: Result<BrokerConfig, Chain>) -> (step: Step)
        ensures
            (final(self)@, step@) == old(self)@.after_discovery(
                match r {
                    Ok(c) => Ok(c@),
                    Err(e) => Err(e@),
                },
            ),
    {
        match r {
            Err(e) => Step::Done(
                Ending::Failed(describe_discovery_error(&e, self.broker.as_str())),
            ),
            Ok(c) => {
                let enabled = c.device_grant.enabled();
                let base = c.base_url.clone();
                self.config = Some(c);
                if !self.authorizing {
                    if self.granted {
                        Step::ExchangeGrant(base)
                    } else {
                        self.past_grant()
                    }
                } else if enabled {
                    self.towards_token()
                } else {
                    // The button is drawn from a discovery that may be minutes old;
                    // this is the fresh one, and an operator who has since turned
                    // the feature off wins.
                    Step::Done(
                        Ending::Failed(
                            Failure {
                                fault: Some(Fault::GrantRefused),
                                message: say(Phrase::ErrGrantDisabled),
                            },
                        ),
                    )
                }
            },
        }
    }

    fn on_grant_exchanged(&mut self, r: Result<Injected, InjectError>) -> (step: Step)
        requires
            old(self)@.config is Some,
        ensures
            (final(self)@, step@) == old(self)@.after_grant(
                match r {
                    Ok(i) => Ok(i@),
                    Err(e) => Err(e@),
                },
            ),
    {
        match r {
            Ok(i) => self.injected(i, true),
            Err(InjectError::Broker(BrokerError::NotAdmitted(why))) => {
                if same(why.as_str(), REFUSED_GRANTS_DISABLED) || same(
                    why.as_str(),
                    REFUSED_NOT_GRANTED,
                ) {
                    self.refused = Some(
                        Failure {
                            fault: Some(Fault::GrantRefused),
                            message: say_about(
                                Phrase::ErrNotAdmitted,
                                Slot::Detail,
                                text_value(why.as_str()),
                            ),
                        },
                    );
                    self.past_grant()
                } else {
                    self.inject_failed(&InjectError::Broker(BrokerError::NotAdmitted(why)))
                }
            },
            Err(InjectError::Broker(BrokerError::InvalidProof(_))) => {
                self.flags = Flags {
                    grant_stale: true,
                    new_browser_session: self.flags.new_browser_session,
                };
                self.past_grant()
            },
            Err(e) => self.inject_failed(&e),
        }
    }

    fn on_refreshed(&mut self, r: Result<Tokens, Chain>) -> (step: Step)
        requires
            old(self)@.config is Some,
        ensures
            (final(self)@, step@) == old(self)@.after_refresh(
                match r {
                    Ok(t) => Ok(t@),
                    Err(e) => Err(e@),
                },
            ),
    {
        match r {
            Err(e) => Step::Done(
                Ending::Failed(describe_token_error(&e, Phrase::ErrSilentRefresh)),
            ),
            Ok(t) => {
                if t.refresh_token.is_some() {
                    self.refresh_token = t.refresh_token;
                }
                self.with_token(t.access_token)
            },
        }
    }

    fn on_browsed(&mut self, r: Result<Option<Tokens>, Chain>) -> (step: Step)
        requires
            old(self)@.config is Some,
        ensures
            (final(self)@, step@) == old(self)@.after_browser(
                match r {
                    Ok(Some(t)) => Ok(Some(t@)),
                    Ok(None) => Ok(None),
                    Err(e) => Err(e@),
                },
            ),
    {
        match r {
            Err(e) => Step::Done(Ending::Failed(describe_token_error(&e, Phrase::ErrSignIn))),
            Ok(None) => Step::Done(Ending::Cancelled),
            Ok(Some(t)) => {
                self.refresh_token = t.refresh_token;
                // A session of ours now exists in a browser.
                self.flags = Flags {
                    grant_stale: self.flags.grant_stale,
                    new_browser_session: true,
                };
                self.with_token(t.access_token)
            },
        }
    }

    fn on_registered(&self, r: Result<Grant, GrantError>) -> (step: Step)
        requires
            self@.config is Some,
        ensures
            step@ == self@.after_registration(
                match r {
                    Ok(g) => Ok(g@),
                    Err(e) => Err(e@),
                },
            ),
    {
        match r {
            Ok(g) => Step::Done(Ending::Authorized(g)),
            Err(GrantError::Broker(e)) => {
                let base = self.base();
                let broker = host_of(base.as_str());
                Step::Done(Ending::Failed(describe_grant_error(&e, broker.as_str())))
            },
            Err(GrantError::Local(s)) => Step::Done(
                Ending::Failed(
                    Failure {
                        fault: Some(Fault::Other),
                        message: say_about(
                            Phrase::ErrGrantKey,
                            Slot::Detail,
                            text_value(s.as_str()),
                        ),
                    },
                ),
            ),
        }
    }

    /// What to do next, after what came of the last step. Discovery comes first.
    pub fn next(&mut self, report: Report) -> (step: Step)
        requires
            old(self)@.config is Some || report@ is Discovered,
        ensures
            (final(self)@, step@) == old(self)@.after(report@),
            final(self)@.config is Some || step@ is Done,
    {
        match report {
            Report::Discovered(r) => self.on_discovered(r),
            Report::GrantExchanged(r) => self.on_grant_exchanged(r),
            Report::Native(NativeToken::Token(t)) => self.with_token(t),
            Report::Native(NativeToken::Unavailable) => self.past_native(),
            Report::Refreshed(r) => self.on_refreshed(r),
            Report::Browsed(r) => self.on_browsed(r),
            Report::Exchanged(Ok(i)) => self.injected(i, false),
            Report::Exchanged(Err(e)) => self.inject_failed(&e),
            Report::Registered(r) => self.on_registered(r),
        }
    }
}

/// What a worker posts the moment `/config` is read: everything after it can fail,
/// and the realm this broker serves is known either way.
pub fn discovered_event(config: &BrokerConfig) -> (r: Event)
    ensures
        r matches Event::Discovered {
            kerberos,
            device_grant,
            defaults,
            help_url,
            idp_name,
            source,
        } && kerberos@ == config@.kerberos && device_grant@ == config@.device_grant && defaults
            == config@.defaults && text::opt_text(help_url) == config@.help_url && idp_name@
            == config@.oidc.display_name && source@ == crate::address::source_of(
            crate::address::url_parse(config@.base_url),
        ),
{
    Event::Discovered {
        kerberos: config.kerberos.clone(),
        device_grant: config.device_grant.clone(),
        defaults: config.defaults,
        help_url: copied(&config.help_url),
        idp_name: config.oidc.display_name.clone(),
        source: source_name(config.base_url.as_str()),
    }
}

/// What a worker posts when its run has ended. `quiet` is the trigger's: a failure
/// nobody asked about goes to the log and nowhere else.
pub fn ending_event(ending: Ending, authorizing: bool, quiet: bool) -> (r: Event)
    ensures
        match ending@ {
            EndingModel::SignedIn { injected, config, via_grant } => r matches Event::SignedIn {
                injected: i,
                kerberos,
                device_grant,
                help_url,
                idp_name,
                via_grant: v,
            } && i@ == injected && kerberos@ == config.kerberos && device_grant@
                == config.device_grant && text::opt_text(help_url) == config.help_url && idp_name@
                == config.oidc.display_name && v == via_grant,
            EndingModel::Authorized(g) => r matches Event::GrantCreated { grant } && grant@ == g,
            EndingModel::Cancelled => r is Cancelled,
            EndingModel::Failed(f) => if authorizing {
                r matches Event::GrantFailed { fault, message } && fault == f.fault && message@
                    == f.message
            } else {
                r matches Event::SignInFailed { fault, message, quiet: q } && fault == f.fault
                    && message@ == f.message && q == quiet
            },
        },
{
    match ending {
        Ending::SignedIn { injected, config, via_grant } => Event::SignedIn {
            injected,
            kerberos: config.kerberos,
            device_grant: config.device_grant,
            help_url: config.help_url,
            idp_name: config.oidc.display_name,
            via_grant,
        },
        Ending::Authorized(grant) => Event::GrantCreated { grant },
        Ending::Cancelled => Event::Cancelled,
        Ending::Failed(f) => if authorizing {
            Event::GrantFailed { fault: f.fault, message: f.message }
        } else {
            Event::SignInFailed { fault: f.fault, message: f.message, quiet }
        },
    }
}

// ------------------------------------------------------------------------ laws

/// A step that gets a ticket, or a token towards one, for whoever is at the
/// keyboard.
pub open spec fn signs_in_a_person(step: StepModel) -> bool {
    step is Native || step is Refresh || step is Browser || step is Exchange
}

/// A pinned machine reaches a ticket with its grant or not at all: whatever comes
/// back, no step of its sign-in asks for anybody's token.
pub proof fn law_a_pinned_machine_signs_nobody_in(s: RunModel, before: StepModel, r: ReportModel)
    requires
        !s.authorizing,
        s.pin is Some,
        answers(before, r),
        !signs_in_a_person(before),
    ensures
        !signs_in_a_person(s.after(r).1),
        s.after(r).0.pin == s.pin,
        s.after(r).0.authorizing == s.authorizing,
{
}

/// A silent run opens no browser, whatever comes back.
pub proof fn law_a_silent_run_opens_no_browser(s: RunModel, r: ReportModel)
    requires
        s.silent,
    ensures
        !(s.after(r).1 is Browser),
        s.after(r).0.silent,
{
}

/// A run that does not authorize registers no key, and one that does injects no
/// ticket: the ticket of a fresh grant comes from the grant.
pub proof fn law_authorizing_and_signing_in_stay_apart(
    s: RunModel,
    before: StepModel,
    r: ReportModel,
)
    requires
        answers(before, r),
        s.authorizing ==> !(before is ExchangeGrant || before is Exchange),
        !s.authorizing ==> !(before is Register),
    ensures
        s.authorizing ==> !(s.after(r).1 is ExchangeGrant || s.after(r).1 is Exchange),
        s.authorizing ==> !(s.after(r).1 matches StepModel::Done(e) && e is SignedIn),
        !s.authorizing ==> !(s.after(r).1 is Register),
        !s.authorizing ==> !(s.after(r).1 matches StepModel::Done(e) && e is Authorized),
{
}

/// Only a refused proof kills a grant. What the operator can undo -- the feature
/// switched off, the account out of its group -- leaves it as it is.
pub proof fn law_only_a_refused_proof_kills_a_grant(s: RunModel, r: ReportModel)
    requires
        !s.flags.grant_stale,
    ensures
        s.after(r).0.flags.grant_stale <==> (r matches ReportModel::GrantExchanged(
            Err(InjectErrorModel::Broker(e)),
        ) && e is InvalidProof),
{
}

/// A session is in the browser exactly once tokens came from it.
pub proof fn law_a_browser_session_is_one_that_gave_tokens(s: RunModel, r: ReportModel)
    requires
        !s.flags.new_browser_session,
    ensures
        s.after(r).0.flags.new_browser_session <==> (r matches ReportModel::Browsed(Ok(Some(_)))),
{
}

/// The access token that a report hands over, if it hands one over.
pub open spec fn token_in(r: ReportModel) -> Option<Seq<char>> {
    match r {
        ReportModel::Native(t) => t,
        ReportModel::Refreshed(Ok(t)) => Some(t.access_token),
        ReportModel::Browsed(Ok(Some(t))) => Some(t.access_token),
        _ => None,
    }
}

/// Every token that a step yields is used, wherever it came from: it is exchanged at the
/// base that was discovered or, where the run authorizes, registers this machine there for
/// whom it is pinned to.
pub proof fn law_every_token_is_used(s: RunModel, r: ReportModel, token: Seq<char>)
    requires
        s.config is Some,
        token_in(r) == Some(token),
    ensures
        !s.authorizing ==> s.after(r).1 == (StepModel::Exchange {
            base: s.config->0.base_url,
            token,
        }),
        s.authorizing ==> s.after(r).1 == (StepModel::Register {
            base: s.config->0.base_url,
            token,
            audience: s.config->0.device_grant.audience,
            target: s.pin,
        }),
        s.after(r).0.config == s.config,
{
}

/// A token is exchanged, a key registered and a grant proved only with what was handed
/// over, and only at the base that was discovered: nothing is made up on the way.
pub proof fn law_no_step_makes_anything_up(s: RunModel, r: ReportModel)
    requires
        s.config is Some || r is Discovered,
    ensures
        s.after(r).1 matches StepModel::Exchange { base, token } ==> token_in(r) == Some(token)
            && base == s.config->0.base_url,
        s.after(r).1 matches StepModel::Register { base, token, .. } ==> token_in(r) == Some(token)
            && base == s.config->0.base_url,
        s.after(r).1 matches StepModel::ExchangeGrant(base) ==> (r matches ReportModel::Discovered(
            Ok(c),
        ) && base == c.base_url && s.granted),
        s.after(r).1 matches StepModel::Refresh(token) ==> s.refresh_token == Some(token),
        !(s.after(r).1 is Discover),
{
}

/// Where a run without a grant of its own looks for a token once the broker is known: the
/// platform's store where it may be asked, then the refresh token where nothing may open a
/// window, and the browser where something may.
pub open spec fn looks_for_a_token(s: RunModel, asked_native: bool, step: StepModel) -> bool {
    if s.use_native && !asked_native {
        step is Native
    } else if !s.silent {
        step is Browser
    } else {
        match s.refresh_token {
            Some(t) => step == StepModel::Refresh(t),
            None => step matches StepModel::Done(EndingModel::Failed(f)) && f.fault is None
                && f.message.args.len() == 0 && (if s.use_native {
                f.message.phrase is ErrWamEmpty
            } else {
                f.message.phrase is ErrBrowserRequired
            }),
        }
    }
}

/// What follows a discovery that landed: the grant where this machine holds one, and
/// otherwise a token -- except on a pinned machine, which waits to be authorized, and for
/// an authorization that the deployment does not offer. The broker is remembered, and
/// nothing else of the run changes.
pub proof fn law_a_discovered_run_goes_on(s: RunModel, c: BrokerModel)
    ensures
        ({
            let (next, step) = s.after(ReportModel::Discovered(Ok(c)));
            &&& next == (RunModel { config: Some(c), ..s })
            &&& !s.authorizing && s.granted ==> step == StepModel::ExchangeGrant(c.base_url)
            &&& !s.authorizing && !s.granted && s.pin is None ==> looks_for_a_token(s, false, step)
            &&& !s.authorizing && !s.granted && s.pin is Some && s.refused is None ==> (
            step matches StepModel::Done(EndingModel::Failed(f)) && f.fault is None
                && f.message.phrase is ErrGrantReauthorize && f.message.args == seq![
                (Slot::Target, FillerModel::Text(s.pin->0)),
            ])
            &&& s.authorizing && c.device_grant.days > 0 && c.device_grant.audience.len() > 0
                ==> looks_for_a_token(s, false, step)
            &&& s.authorizing && (c.device_grant.days == 0 || c.device_grant.audience.len() == 0)
                ==> (step matches StepModel::Done(EndingModel::Failed(f)) && f.fault == Some(
                Fault::GrantRefused,
            ) && f.message.phrase is ErrGrantDisabled)
        }),
{
}

/// A platform store that has nothing is passed over: what follows is what would have
/// followed without one, and the run is as it was.
pub proof fn law_an_empty_store_is_passed_over(s: RunModel)
    ensures
        s.after(ReportModel::Native(None)).0 == s,
        looks_for_a_token(s, true, s.after(ReportModel::Native(None)).1),
{
}

/// A run that got what it went for ends with it: a ticket in the cache signs in, by the
/// grant exactly where the grant was proved; a registered key is the authorization; and a
/// browser that was closed is a cancelled run.
pub proof fn law_a_landed_run_ends_with_what_it_got(
    s: RunModel,
    i: InjectedModel,
    g: GrantModel,
    c: BrokerModel,
)
    requires
        s.config == Some(c),
    ensures
        s.after(ReportModel::GrantExchanged(Ok(i))) == (
            s,
            StepModel::Done(EndingModel::SignedIn { injected: i, config: c, via_grant: true }),
        ),
        s.after(ReportModel::Exchanged(Ok(i))) == (
            s,
            StepModel::Done(EndingModel::SignedIn { injected: i, config: c, via_grant: false }),
        ),
        s.after(ReportModel::Registered(Ok(g))) == (s, StepModel::Done(EndingModel::Authorized(g))),
        s.after(ReportModel::Browsed(Ok(None))) == (s, StepModel::Done(EndingModel::Cancelled)),
{
}

/// A refused grant falls through to a sign-in where a sign-in can help: a proof that was
/// refused, the feature switched off, the account out of its group. On a pinned machine
/// nobody's sign-in can, and the run ends saying so. Any other failure of the exchange ends
/// the run.
pub proof fn law_a_refused_grant_falls_through(s: RunModel, e: InjectErrorModel)
    requires
        s.config is Some,
        s.refused is None,
    ensures
        ({
            let policy = e matches InjectErrorModel::Broker(BrokerErrorModel::NotAdmitted(why))
                && (why == "account may not authorize a device"@ || why
                == "device grants are not enabled"@);
            let proof_refused = e matches InjectErrorModel::Broker(
                BrokerErrorModel::InvalidProof(_),
            );
            let (next, step) = s.after(ReportModel::GrantExchanged(Err(e)));
            &&& (policy || proof_refused) && s.pin is None ==> looks_for_a_token(s, false, step)
            &&& (policy || proof_refused) && s.pin is Some ==> (step matches StepModel::Done(
                EndingModel::Failed(f),
            ) && (policy ==> f.fault == Some(Fault::GrantRefused) && f.message.phrase
                is ErrNotAdmitted) && (proof_refused ==> f.fault is None && f.message.phrase
                is ErrGrantReauthorize))
            &&& !policy && !proof_refused ==> (step matches StepModel::Done(EndingModel::Failed(f))
                && f.fault is Some)
            &&& next.flags.grant_stale == (s.flags.grant_stale || proof_refused)
            &&& next.refresh_token == s.refresh_token && next.pin == s.pin
        }),
{
    failure::law_an_exchange_failure_has_a_class(e, super::host_part(s.base()));
}

/// A failure ends the run it happened in, and changes nothing of it.
pub proof fn law_a_failed_step_ends_the_run(s: RunModel, r: ReportModel)
    requires
        r matches ReportModel::Discovered(Err(_)) || r matches ReportModel::Refreshed(Err(_))
            || r matches ReportModel::Browsed(Err(_)) || r matches ReportModel::Exchanged(Err(_))
            || r matches ReportModel::Registered(Err(_)),
    ensures
        s.after(r).0 == s,
        s.after(r).1 matches StepModel::Done(e) && e is Failed,
{
}

/// The refresh token in memory is the newest one: a renewal that gave none leaves the one
/// that worked, and a browser sign-in replaces whatever there was -- with nothing, where it
/// gave nothing.
pub proof fn law_the_newest_refresh_token_is_kept(s: RunModel, t: TokensModel)
    ensures
        s.after(ReportModel::Refreshed(Ok(t))).0.refresh_token == (match t.refresh_token {
            Some(newer) => Some(newer),
            None => s.refresh_token,
        }),
        s.after(ReportModel::Browsed(Ok(Some(t)))).0.refresh_token == t.refresh_token,
{
}

/// A failure is told as what failed: a discovery by the broker that was asked, a silent
/// renewal and a browser sign-in each in its own words, an exchange and a registration by
/// the host they went to, and a key that could not be made as this machine's own trouble.
pub proof fn law_a_failure_is_told_as_what_failed(
    s: RunModel,
    e: Seq<CauseModel>,
    x: InjectErrorModel,
    b: BrokerErrorModel,
    local: Seq<char>,
)
    requires
        s.config is Some,
    ensures
        s.after(ReportModel::Discovered(Err(e))).1 == StepModel::Done(
            EndingModel::Failed(failure::discovery_failure(e, s.broker)),
        ),
        s.after(ReportModel::Refreshed(Err(e))).1 == StepModel::Done(
            EndingModel::Failed(failure::token_failure(e, Phrase::ErrSilentRefresh)),
        ),
        s.after(ReportModel::Browsed(Err(e))).1 == StepModel::Done(
            EndingModel::Failed(failure::token_failure(e, Phrase::ErrSignIn)),
        ),
        s.after(ReportModel::Exchanged(Err(x))).1 == StepModel::Done(
            EndingModel::Failed(
                failure::inject_failure(x, super::host_part((s.config->0).base_url)),
            ),
        ),
        s.after(ReportModel::Registered(Err(GrantErrorModel::Broker(b)))).1 == StepModel::Done(
            EndingModel::Failed(
                failure::grant_failure(b, super::host_part((s.config->0).base_url)),
            ),
        ),
        s.after(ReportModel::Registered(Err(GrantErrorModel::Local(local)))).1 == StepModel::Done(
            EndingModel::Failed(
                FailureModel {
                    fault: Some(Fault::Other),
                    message: sentence::about(
                        Phrase::ErrGrantKey,
                        Slot::Detail,
                        FillerModel::Text(local),
                    ),
                },
            ),
        ),
{
}

/// A grant's exchange that failed for any other reason ends the run, told by the host it
/// went to; a policy that refuses the grant is told in the broker's words.
pub proof fn law_a_grants_failure_is_told(s: RunModel, e: InjectErrorModel)
    requires
        s.config is Some,
        s.pin is Some || !(e matches InjectErrorModel::Broker(b) && (b is InvalidProof
            || b is NotAdmitted)),
    ensures
        ({
            let step = s.after(ReportModel::GrantExchanged(Err(e))).1;
            &&& !(e matches InjectErrorModel::Broker(b) && (b is InvalidProof || b is NotAdmitted))
                ==> step == StepModel::Done(
                EndingModel::Failed(
                    failure::inject_failure(e, super::host_part((s.config->0).base_url)),
                ),
            )
            &&& e matches InjectErrorModel::Broker(BrokerErrorModel::NotAdmitted(why)) ==> (why
                == "account may not authorize a device"@ || why
                == "device grants are not enabled"@) ==> step == StepModel::Done(
                EndingModel::Failed(
                    FailureModel {
                        fault: Some(Fault::GrantRefused),
                        message: sentence::about(
                            Phrase::ErrNotAdmitted,
                            Slot::Detail,
                            FillerModel::Text(
                                (e->Broker_0)->NotAdmitted_0,
                            ),
                        ),
                    },
                ),
            )
        }),
{
}

/// What a step changes of a run: only what it learned.
pub proof fn law_a_run_keeps_what_it_started_with(s: RunModel, r: ReportModel)
    ensures
        ({
            let n = s.after(r).0;
            &&& n.broker == s.broker
            &&& n.authorizing == s.authorizing
            &&& n.silent == s.silent
            &&& n.use_native == s.use_native
            &&& n.granted == s.granted
            &&& n.pin == s.pin
            &&& !(r is Discovered) ==> n.config == s.config
            &&& !(r is GrantExchanged) ==> n.refused == s.refused
            &&& !(r is Refreshed) && !(r is Browsed) ==> n.refresh_token == s.refresh_token
        }),
{
}

} // verus!
