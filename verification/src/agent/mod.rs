//! The agent's brain: what state we are in, when to re-inject, and what every
//! event changes.
//!
//! The platform's agent draws; this decides. What it cannot do without a UI, a
//! network or an operating system it asks for: every transition here returns the
//! [`Effects`] that its caller has to carry out.
//!
//! **The lifecycle this implements.** Windows renews an injected TGT at T-15m,
//! the KDC grants it, and Windows never installs the result; worse, a TGT that
//! expires while an SMB session is open drops the redirector into a stuck NTLM
//! fallback, which only an elevated service restart clears. So re-injection at
//! about half of the ticket lifetime is not a convenience -- it is the thing that
//! prevents the worst failure mode, and it must always land before End Time.

pub mod commands;
pub mod failure;
pub mod jobs;
pub mod schedule;
pub mod signin;
pub mod start;
pub mod status;
pub mod tick;
pub mod worker;

use crate::config::{Settings, SettingsModel};
use crate::describe::{lists_action, Action, Fault};
use crate::discovery::{DeviceGrantConfig, DeviceGrantModel, KerberosConfig, KerberosModel};
use crate::enroll;
use crate::sentence;
use crate::sentence::{say, Phrase, Sentence, SentenceModel};
use crate::text;
use schedule::PROBE_FIRST_SECS;
use vstd::prelude::*;
use vstd::string::*;

verus! {

/// What a raise-request is about: the subject the surface should open on, never
/// a view for it to render.
#[derive(Clone, Copy, PartialEq, Eq, Debug, Structural)]
pub enum Raise {
    Status,
    Repair,
}

/// How loud a notification is. Keyed on the condition it announces, never on
/// which code path emitted it.
#[derive(Clone, Copy, PartialEq, Eq, Debug, Structural)]
pub enum Severity {
    /// Something worked. No icon.
    Info,
    /// A deadline the user can still act before.
    Warning,
    /// It has already stopped, or an operation failed.
    Error,
}

/// What one of the hosted operations came to, in the vocabulary its dialog
/// renders.
#[derive(PartialEq, Eq, Debug)]
pub enum Outcome {
    /// The user said no at the elevation prompt. A decision rather than a fault:
    /// it returns the dialog to its question, unchanged and silent.
    Declined,
    /// `detail` holds further, independent facts -- the only operation with any
    /// is giving up a grant, where the key here and the record at the broker can
    /// disagree.
    Done { message: Sentence, detail: Vec<Sentence> },
    Failed { message: Sentence },
}

#[verifier::ext_equal]
pub enum OutcomeModel {
    Declined,
    Done { message: SentenceModel, detail: Seq<SentenceModel> },
    Failed { message: SentenceModel },
}

impl View for Outcome {
    type V = OutcomeModel;

    open spec fn view(&self) -> OutcomeModel {
        match *self {
            Outcome::Declined => OutcomeModel::Declined,
            Outcome::Done { message, detail } => OutcomeModel::Done {
                message: message@,
                detail: sentence::sentences(detail@),
            },
            Outcome::Failed { message } => OutcomeModel::Failed { message: message@ },
        }
    }
}

/// A notification: what it is called, what it says, how loud it is.
#[derive(PartialEq, Eq, Debug)]
pub struct Notice {
    pub title: Sentence,
    pub body: Sentence,
    pub severity: Severity,
}

#[verifier::ext_equal]
pub struct NoticeModel {
    pub title: SentenceModel,
    pub body: SentenceModel,
    pub severity: Severity,
}

impl View for Notice {
    type V = NoticeModel;

    open spec fn view(&self) -> NoticeModel {
        NoticeModel { title: self.title@, body: self.body@, severity: self.severity }
    }
}

/// What the agent is doing. Internal machinery: what a *surface* says is
/// [`crate::describe`]'s, computed from facts rather than from this.
#[derive(Clone, Copy, PartialEq, Eq, Debug, Structural)]
pub enum Phase {
    SignedOut,
    SigningIn,
    Connected,
    /// The ticket reached End Time without a renewal landing. A distinct phase, not
    /// a clock comparison against `Connected`, so the expiry is announced exactly
    /// once instead of on every timer tick.
    Expired,
    Error,
}

/// Where the agent is in an NTLM-fallback episode.
///
/// An episode opens when the injected TGT vanishes *before* its End Time and
/// closes only when a ticket exchange lands or the session is given up. That is
/// the whole rate limit: one raised status window per episode.
#[derive(Clone, Copy, PartialEq, Eq, Debug, Structural)]
pub enum NtlmFallback {
    /// No episode open.
    Clear,
    /// Detected. Restarting the Workstation service drops every SMB session on
    /// the machine, so the agent never does it on its own -- this state only
    /// raises the surface for the user-consented elevated repair.
    Confirmed,
}

/// Why a sign-in worker is running. It decides two things: whether a window may
/// open on its own, and what a failure means to the person at the keyboard.
#[derive(Clone, Copy, PartialEq, Eq, Debug, Structural)]
pub enum Trigger {
    /// The user clicked Sign in. A window may open, and a failure is an answer to
    /// something they asked for, so it is shown.
    User,
    /// The re-injection schedule. Silent, and a failure is worth a balloon: the
    /// session lapses without one.
    Renewal,
    /// Autostart at logon. Silent, and a failure is unremarkable.
    Startup,
    /// A grant was just created, and the machine has no ticket of that grant's
    /// yet. Silent and quiet.
    Granted,
}

impl Trigger {
    /// True when nothing may open a window: the attempt succeeds from a credential
    /// already held, or it does not happen.
    pub fn silent(self) -> (r: bool)
        ensures
            r == !(self is User),
    {
        !matches!(self, Trigger::User)
    }

    /// True when a failure goes to the log and nowhere else.
    pub fn quiet(self) -> (r: bool)
        ensures
            r == (self is Startup || self is Granted),
    {
        matches!(self, Trigger::Startup | Trigger::Granted)
    }
}

/// Everything the agent knows.
pub struct Agent {
    pub settings: Settings,
    /// Realm/KDC/services as last discovered, falling back to the config cache
    /// so the agent can name the realm before its first successful discovery.
    pub kerberos: KerberosConfig,
    pub enroll_state: enroll::State,
    pub phase: Phase,
    pub principal: String,
    pub start: i64,
    pub end: i64,
    pub renew_till: i64,
    /// When to silently re-inject.
    pub refresh_at: Option<i64>,
    pub message: Sentence,
    /// What class of failure the message is about, or `None` when it is a note
    /// rather than a fault.
    pub fault: Option<Fault>,
    /// The first transport failure with nothing landed after it, in Unix
    /// seconds. What makes `Flaky` a duration.
    pub first_failure_at: Option<i64>,
    /// When to ask the broker for `/config` again, and how long to wait after
    /// that. Set only while a transport failure stands.
    pub probe_at: Option<i64>,
    pub probe_backoff: i64,
    /// Backoff for `refresh_at` while a network failure stands.
    pub refresh_backoff: i64,
    /// What is running, in the surface's vocabulary. At most one of these holds
    /// the busy slot; the cloud logout and the revoke sit outside it and can
    /// overlap.
    pub in_flight: Vec<Action>,
    /// A grant was created and nothing has happened since.
    pub just_authorized: bool,
    /// The exchange that grant itself started, which must not be what clears
    /// `just_authorized`.
    pub granted_exchange_pending: bool,
    /// A silent renewal has failed, so the ticket will run out unless the user
    /// signs in again.
    pub silent_failed: bool,
    /// When to retry the autostart sign-in, and how many non-network goes are left.
    pub startup_retry_at: Option<i64>,
    pub startup_retries: u8,
    /// Backoff for `startup_retry_at` while a network failure stands.
    pub startup_backoff: i64,
    /// The "your session is about to lapse" balloon has been shown for this ticket.
    pub escalated: bool,
    /// What this deployment allows in the way of device grants, as last
    /// discovered. Memory only and off until a discovery says otherwise.
    pub device_grant: DeviceGrantConfig,
    /// Where the tray menu's *Help* goes, as last discovered.
    pub help_url: Option<String>,
    /// What to call the IdP, as last discovered.
    pub idp_name: String,
    /// Which source this machine authenticates against, as last discovered.
    pub source: String,
    pub fallback: NtlmFallback,
    /// When the next NTLM-fallback check is due; 0 = as soon as the conditions hold.
    pub fallback_check_at: i64,
    /// When the grant deadline was last announced.
    pub grant_notified_at: Option<i64>,
    /// A worker holds the agent's one busy slot.
    pub busy: bool,
}

#[verifier::ext_equal]
pub struct AgentModel {
    pub settings: SettingsModel,
    pub kerberos: KerberosModel,
    pub enroll_state: enroll::StateModel,
    pub phase: Phase,
    pub principal: Seq<char>,
    pub start: i64,
    pub end: i64,
    pub renew_till: i64,
    pub refresh_at: Option<i64>,
    pub message: SentenceModel,
    pub fault: Option<Fault>,
    pub first_failure_at: Option<i64>,
    pub probe_at: Option<i64>,
    pub probe_backoff: i64,
    pub refresh_backoff: i64,
    pub in_flight: Seq<Action>,
    pub just_authorized: bool,
    pub granted_exchange_pending: bool,
    pub silent_failed: bool,
    pub startup_retry_at: Option<i64>,
    pub startup_retries: u8,
    pub startup_backoff: i64,
    pub escalated: bool,
    pub device_grant: DeviceGrantModel,
    pub help_url: Option<Seq<char>>,
    pub idp_name: Seq<char>,
    pub source: Seq<char>,
    pub fallback: NtlmFallback,
    pub fallback_check_at: i64,
    pub grant_notified_at: Option<i64>,
    pub busy: bool,
}

impl View for Agent {
    type V = AgentModel;

    open spec fn view(&self) -> AgentModel {
        AgentModel {
            settings: self.settings@,
            kerberos: self.kerberos@,
            enroll_state: self.enroll_state@,
            phase: self.phase,
            principal: self.principal@,
            start: self.start,
            end: self.end,
            renew_till: self.renew_till,
            refresh_at: self.refresh_at,
            message: self.message@,
            fault: self.fault,
            first_failure_at: self.first_failure_at,
            probe_at: self.probe_at,
            probe_backoff: self.probe_backoff,
            refresh_backoff: self.refresh_backoff,
            in_flight: self.in_flight@,
            just_authorized: self.just_authorized,
            granted_exchange_pending: self.granted_exchange_pending,
            silent_failed: self.silent_failed,
            startup_retry_at: self.startup_retry_at,
            startup_retries: self.startup_retries,
            startup_backoff: self.startup_backoff,
            escalated: self.escalated,
            device_grant: self.device_grant@,
            help_url: text::opt_text(self.help_url),
            idp_name: self.idp_name@,
            source: self.source@,
            fallback: self.fallback,
            fallback_check_at: self.fallback_check_at,
            grant_notified_at: self.grant_notified_at,
            busy: self.busy,
        }
    }
}

/// The times a backoff may stand at.
pub open spec fn backed_off(held: i64) -> bool {
    0 <= held <= schedule::PROBE_MAX_SECS
}

/// An optional time that the clock may be subtracted from.
pub open spec fn opt_moment(t: Option<i64>) -> bool {
    match t {
        Some(t) => schedule::moment(t),
        None => true,
    }
}

/// The operations that are not `action`.
pub open spec fn others(v: Seq<Action>, action: Action) -> Seq<Action> {
    v.filter(other_than(action))
}

pub open spec fn other_than(action: Action) -> spec_fn(Action) -> bool {
    |a: Action| a != action
}

impl AgentModel {
    /// Every clock the agent computes with is a time, and every backoff is one
    /// that backing off reaches.
    pub open spec fn sound(self) -> bool {
        &&& schedule::moment(self.start)
        &&& schedule::moment(self.end)
        &&& schedule::moment(self.renew_till)
        &&& opt_moment(self.first_failure_at)
        &&& opt_moment(self.grant_notified_at)
        &&& backed_off(self.probe_backoff)
        &&& backed_off(self.refresh_backoff)
        &&& backed_off(self.startup_backoff)
    }

    /// Everything about the current session forgotten, including the schedule.
    pub open spec fn reset(self) -> AgentModel {
        AgentModel {
            phase: Phase::SignedOut,
            startup_retry_at: None,
            startup_retries: 0,
            principal: Seq::empty(),
            start: 0,
            end: 0,
            renew_till: 0,
            refresh_at: None,
            silent_failed: false,
            escalated: false,
            message: sentence::plain(Phrase::Silence),
            fault: None,
            first_failure_at: None,
            probe_at: None,
            fallback: NtlmFallback::Clear,
            fallback_check_at: 0,
            ..self
        }
    }

    /// What this machine would be working as right now: the realm, and the
    /// account it gets tickets for when that is not whoever signs in. `None`
    /// before any realm is known.
    pub open spec fn scope(self) -> Option<Seq<char>> {
        if self.kerberos.realm.len() == 0 {
            None
        } else {
            Some(
                self.kerberos.realm + seq!['|'] + text::or_nothing(self.settings.grant_for()),
            )
        }
    }

    /// **H** -- this machine is supposed to be working here. A comparison rather
    /// than a flag, so the two things that void the expectation cost no event.
    pub open spec fn expected(self) -> bool {
        self.scope() is Some && self.settings.file.expected_working_as == self.scope()
    }

    /// With that expectation remembered, or forgotten.
    pub open spec fn expecting(self, on: bool) -> AgentModel {
        AgentModel {
            settings: self.settings.expecting(
                if on {
                    self.scope()
                } else {
                    None
                },
            ),
            ..self
        }
    }

    /// True while the injected ticket is still usable, whatever the agent is doing.
    pub open spec fn live(self, now: i64) -> bool {
        (self.phase is Connected || self.phase is SigningIn) && self.end > now
            && self.principal.len() > 0
    }

    /// What happened and what class it was. The first transport failure with
    /// nothing landed after it opens the flaky window and arms the re-probe, and
    /// anything that is not one closes both.
    pub open spec fn recording(
        self,
        fault: Option<Fault>,
        message: SentenceModel,
        now: i64,
    ) -> AgentModel {
        if fault == Some(Fault::Network) {
            AgentModel {
                message,
                fault,
                first_failure_at: if self.first_failure_at is Some {
                    self.first_failure_at
                } else {
                    Some(now)
                },
                probe_backoff: if self.probe_at is Some {
                    self.probe_backoff
                } else {
                    PROBE_FIRST_SECS
                },
                probe_at: if self.probe_at is Some {
                    self.probe_at
                } else {
                    Some((now + PROBE_FIRST_SECS) as i64)
                },
                ..self
            }
        } else {
            AgentModel { message, fault, first_failure_at: None, probe_at: None, ..self }
        }
    }

    /// Something said with nothing wrong behind it.
    pub open spec fn noting(self, message: SentenceModel) -> AgentModel {
        AgentModel { message, fault: None, ..self }
    }

    /// An operation marked as running.
    pub open spec fn running(self, action: Action) -> AgentModel {
        AgentModel {
            in_flight: if self.in_flight.contains(action) {
                self.in_flight
            } else {
                self.in_flight.push(action)
            },
            ..self
        }
    }

    /// An operation no longer running.
    pub open spec fn without(self, action: Action) -> AgentModel {
        AgentModel { in_flight: others(self.in_flight, action), ..self }
    }
}

/// `url` without its scheme and without a trailing slash.
pub open spec fn host_part(url: Seq<char>) -> Seq<char> {
    text::without_trailing(
        text::without_leading(text::without_leading(url, "https://"@), "http://"@),
        '/',
    )
}

pub fn host_of(url: &str) -> (r: String)
    ensures
        r@ == host_part(url@),
{
    proof {
        reveal_strlit("https://");
        reveal_strlit("http://");
    }
    let a = text::trim_start_str(url, "https://");
    let b = text::trim_start_str(a.as_str(), "http://");
    text::trim_end_char(b.as_str(), '/')
}

impl Agent {
    /// Forget everything about the current session, including the schedule.
    pub fn reset_session(&mut self)
        ensures
            final(self)@ == old(self)@.reset(),
    {
        self.phase = Phase::SignedOut;
        self.startup_retry_at = None;
        self.startup_retries = 0;
        self.principal = String::new();
        self.start = 0;
        self.end = 0;
        self.renew_till = 0;
        self.refresh_at = None;
        self.silent_failed = false;
        self.escalated = false;
        self.message = say(Phrase::Silence);
        self.fault = None;
        self.first_failure_at = None;
        self.probe_at = None;
        // The episode was about a ticket this session no longer has.
        self.fallback = NtlmFallback::Clear;
        self.fallback_check_at = 0;
    }

    pub fn scope(&self) -> (r: Option<String>)
        ensures
            text::opt_text(r) == self@.scope(),
    {
        if self.kerberos.realm.as_str().is_empty() {
            return None;
        }
        proof {
            reveal_strlit("|");
            assert("|"@ =~= seq!['|']);
        }
        let mut s = self.kerberos.realm.clone();
        s.append("|");
        let target = text::or_empty(self.settings.grant_for());
        s.append(target.as_str());
        Some(s)
    }

    pub fn expected(&self) -> (r: bool)
        ensures
            r == self@.expected(),
    {
        match (self.scope(), self.settings.expected_working_as()) {
            (Some(s), Some(e)) => text::same(s.as_str(), e),
            _ => false,
        }
    }

    /// Remember, or forget, that expectation. Returns whether the file changed.
    pub fn expect(&mut self, on: bool) -> (save: bool)
        ensures
            final(self)@ == old(self)@.expecting(on),
            save == (old(self)@.settings.file.expected_working_as
                != final(self)@.settings.file.expected_working_as),
    {
        let scope = if on {
            self.scope()
        } else {
            None
        };
        match &scope {
            Some(s) => self.settings.set_expected_working_as(Some(s.as_str())),
            None => self.settings.set_expected_working_as(None),
        }
    }

    pub fn holds_live_ticket(&self, now: i64) -> (r: bool)
        ensures
            r == self@.live(now),
    {
        matches!(self.phase, Phase::Connected | Phase::SigningIn) && self.end > now
            && !self.principal.as_str().is_empty()
    }

    /// Record what happened and what class it was.
    pub fn record(&mut self, fault: Option<Fault>, message: Sentence, now: i64)
        requires
            schedule::clock(now),
        ensures
            final(self)@ == old(self)@.recording(fault, message@, now),
    {
        self.message = message;
        self.fault = fault;
        if matches!(fault, Some(Fault::Network)) {
            if self.first_failure_at.is_none() {
                self.first_failure_at = Some(now);
            }
            // Armed once and then left to its own backoff: this runs on every
            // failure, including the ones the probe itself provokes, and
            // re-arming would hold the interval at its shortest for ever.
            if self.probe_at.is_none() {
                self.probe_backoff = PROBE_FIRST_SECS;
                self.probe_at = Some(now + PROBE_FIRST_SECS);
            }
        } else {
            self.first_failure_at = None;
            self.probe_at = None;
        }
    }

    /// Say something with nothing wrong behind it. The surface keys its fault
    /// ink and its offer of the log on the fault, never on the message.
    pub fn note(&mut self, message: Sentence)
        ensures
            final(self)@ == old(self)@.noting(message@),
    {
        self.message = message;
        self.fault = None;
    }

    /// Mark an operation as running, so the surface disables its control rather
    /// than hiding it.
    pub fn started(&mut self, action: Action)
        ensures
            final(self)@ == old(self)@.running(action),
    {
        if !lists_action(&self.in_flight, action) {
            self.in_flight.push(action);
        }
    }
}

/// The realm as last discovered. The one piece of discovery a *surface* needs
/// directly: the enrollment confirmation shows the literal plan, and the plan is
/// built from the KDC list rather than from the realm's name.
pub fn kerberos_config(a: &Agent) -> (r: KerberosConfig)
    ensures
        r@ == a@.kerberos,
{
    a.kerberos.clone()
}

// ------------------------------------------------------------------------ laws

/// What is running after an operation started or finished: that one, or all but that one.
pub proof fn law_what_is_running(m: AgentModel, action: Action, other: Action)
    ensures
        m.running(action).in_flight.contains(action),
        !m.without(action).in_flight.contains(action),
        other != action ==> (m.running(action).in_flight.contains(other)
            <==> m.in_flight.contains(other)),
        other != action ==> (m.without(action).in_flight.contains(other)
            <==> m.in_flight.contains(other)),
        m.in_flight.no_duplicates() ==> m.running(action).in_flight.no_duplicates(),
        m.running(action) == (AgentModel { in_flight: m.running(action).in_flight, ..m }),
        m.without(action) == (AgentModel { in_flight: m.without(action).in_flight, ..m }),
{
    crate::lists::filter_holds(m.in_flight, other_than(action), action);
    crate::lists::filter_holds(m.in_flight, other_than(action), other);
    let pushed = m.in_flight.push(action);
    assert(pushed[pushed.len() - 1] == action);
    if m.in_flight.contains(other) {
        let i = choose|i: int| 0 <= i < m.in_flight.len() && m.in_flight[i] == other;
        assert(pushed[i] == other);
    }
    if pushed.contains(other) && other != action {
        let i = choose|i: int| 0 <= i < pushed.len() && pushed[i] == other;
        assert(m.in_flight[i] == other);
    }
}

/// A ticket counts as live until its end, for somebody, while connected or signing in.
pub proof fn law_when_a_ticket_is_live(m: AgentModel, now: i64)
    ensures
        m.live(now) ==> now < m.end && m.principal != Seq::<char>::empty(),
        m.phase == Phase::Connected && now < m.end && m.principal.len() > 0 ==> m.live(now),
        m.phase == Phase::SigningIn && now < m.end && m.principal.len() > 0 ==> m.live(now),
        m.phase == Phase::SignedOut || m.phase == Phase::Expired || m.phase == Phase::Error
            ==> !m.live(now),
{
}

/// A session that is given up leaves nothing of itself behind: no ticket, no schedule, no
/// failure and no episode. The settings, the realm, the enrollment, what is running and
/// what the broker said stay.
pub proof fn law_a_session_given_up_leaves_nothing(m: AgentModel)
    ensures
        ({
            let r = m.reset();
            &&& r.phase is SignedOut
            &&& r.principal == Seq::<char>::empty()
            &&& r.start == 0 && r.end == 0 && r.renew_till == 0
            &&& r.refresh_at is None && r.startup_retry_at is None && r.probe_at is None
            &&& r.startup_retries == 0
            &&& r.fault is None && r.first_failure_at is None
            &&& r.message.phrase is Silence && r.message.args.len() == 0
            &&& !r.silent_failed && !r.escalated
            &&& r.fallback is Clear && r.fallback_check_at == 0
            &&& r.settings == m.settings && r.kerberos == m.kerberos
            &&& r.enroll_state == m.enroll_state
            &&& r.in_flight == m.in_flight && r.busy == m.busy
            &&& r.just_authorized == m.just_authorized
            &&& r.granted_exchange_pending == m.granted_exchange_pending
            &&& r.device_grant == m.device_grant && r.help_url == m.help_url
            &&& r.idp_name == m.idp_name && r.source == m.source
            &&& r.grant_notified_at == m.grant_notified_at
            &&& r.probe_backoff == m.probe_backoff && r.refresh_backoff == m.refresh_backoff
            &&& r.startup_backoff == m.startup_backoff
        }),
{
}

/// What a machine works as is its realm and the account that is pinned, with a bar between
/// them; before a realm is known it works as nothing.
pub proof fn law_what_a_machine_works_as(m: AgentModel)
    ensures
        m.kerberos.realm.len() == 0 ==> m.scope() is None && !m.expected(),
        m.kerberos.realm.len() > 0 && m.settings.policy.grant_for is Some ==> m.scope() == Some(
            m.kerberos.realm + seq!['|'] + m.settings.policy.grant_for->0,
        ),
        m.kerberos.realm.len() > 0 && m.settings.policy.grant_for is None
            && m.settings.file.grant_for is Some ==> m.scope() == Some(
            m.kerberos.realm + seq!['|'] + m.settings.file.grant_for->0,
        ),
        m.kerberos.realm.len() > 0 && m.settings.policy.grant_for is None
            && m.settings.file.grant_for is None ==> m.scope() == Some(
            m.kerberos.realm + seq!['|'],
        ),
        m.expected() ==> m.scope() is Some && m.settings.file.expected_working_as == m.scope(),
        m.kerberos.realm.len() > 0 ==> m.expecting(true).expected(),
        !m.expecting(false).expected(),
        m.expecting(true).settings.file.expected_working_as == m.scope(),
        m.expecting(false).settings.file.expected_working_as is None,
{
    if m.scope() is Some {
        assert(m.kerberos.realm + seq!['|'] + Seq::<char>::empty() =~= m.kerberos.realm + seq!['|']);
    }
}

/// A failure is always recorded as what it was and as what it said. The first of the
/// network's opens the window and asks again half a minute later; a later one moves neither
/// that moment nor the question already due.
pub proof fn law_a_failure_is_recorded(
    m: AgentModel,
    fault: Option<Fault>,
    message: SentenceModel,
    now: i64,
)
    requires
        schedule::clock(now),
    ensures
        ({
            let r = m.recording(fault, message, now);
            &&& r.message == message && r.fault == fault
            &&& fault == Some(Fault::Network) && m.probe_at is None ==> r.probe_at == Some(
                (now + 30) as i64,
            ) && r.probe_backoff == 30
            &&& fault == Some(Fault::Network) && m.probe_at is Some ==> r.probe_at == m.probe_at
                && r.probe_backoff == m.probe_backoff
            &&& fault == Some(Fault::Network) ==> r.first_failure_at is Some
            &&& fault != Some(Fault::Network) ==> r.first_failure_at is None && r.probe_at is None
                && r.probe_backoff == m.probe_backoff
            &&& r == (AgentModel {
                message: r.message,
                fault: r.fault,
                first_failure_at: r.first_failure_at,
                probe_at: r.probe_at,
                probe_backoff: r.probe_backoff,
                ..m
            })
            &&& m.noting(message).message == message && m.noting(message).fault is None
            &&& m.noting(message) == (AgentModel { message, fault: None, ..m })
        }),
{
}

/// A host is an address without its scheme and without slashes at its end.
pub proof fn law_a_host_is_what_follows_the_scheme(host: Seq<char>)
    requires
        host.len() > 0,
        host.last() != '/',
        !"https://"@.is_prefix_of(host),
        !"http://"@.is_prefix_of(host),
    ensures
        host_part(host) == host,
        host_part(host.push('/')) == host,
        host_part("https://"@ + host) == host,
        host_part(("https://"@ + host).push('/')) == host,
        host_part("http://"@ + host) == host,
{
    reveal_strlit("https://");
    reveal_strlit("http://");
    let s = "https://"@;
    let p = "http://"@;
    assert(s.len() == 8 && p.len() == 7 && s[4] == 's' && p[4] == ':');
    let slashed = host.push('/');
    assert(!s.is_prefix_of(slashed)) by {
        if s.is_prefix_of(slashed) {
            assert(slashed.take(8) == s);
            if host.len() >= 8 {
                assert(host.take(8) =~= s);
                assert(s.is_prefix_of(host));
            } else {
                assert(host.len() == 7);
                assert(host.last() == slashed.take(8)[6]);
                assert(s[6] == '/');
            }
        }
    }
    assert(!p.is_prefix_of(slashed)) by {
        if p.is_prefix_of(slashed) {
            assert(slashed.take(7) == p);
            if host.len() >= 7 {
                assert(host.take(7) =~= p);
                assert(p.is_prefix_of(host));
            } else {
                assert(host.len() == 6);
                assert(host.last() == slashed.take(7)[5]);
                assert(p[5] == '/');
            }
        }
    }
    text::law_a_prefix_goes_as_often_as_it_stands(host, s);
    text::law_a_prefix_goes_as_often_as_it_stands(host, p);
    text::law_a_prefix_goes_as_often_as_it_stands(slashed, s);
    text::law_a_prefix_goes_as_often_as_it_stands(slashed, p);
    assert(slashed.drop_last() =~= host);
    assert((s + host).push('/') =~= s + slashed);
    let plain = p + host;
    assert(!s.is_prefix_of(plain)) by {
        if s.is_prefix_of(plain) {
            assert(plain.take(8)[4] == s[4]);
            assert(plain[4] == p[4]);
        }
    }
    text::law_a_prefix_goes_as_often_as_it_stands(plain, s);
}

/// What contracts speak of is what the fields hold, each under its own name.
pub proof fn law_every_field_is_seen_under_its_name(n: Notice, a: Agent)
    ensures
        n@.title == n.title@,
        n@.body == n.body@,
        n@.severity == n.severity,
        a@.settings == a.settings@,
        a@.kerberos == a.kerberos@,
        a@.enroll_state == a.enroll_state@,
        a@.phase == a.phase,
        a@.principal == a.principal@,
        a@.start == a.start,
        a@.end == a.end,
        a@.renew_till == a.renew_till,
        a@.refresh_at == a.refresh_at,
        a@.message == a.message@,
        a@.fault == a.fault,
        a@.first_failure_at == a.first_failure_at,
        a@.probe_at == a.probe_at,
        a@.probe_backoff == a.probe_backoff,
        a@.refresh_backoff == a.refresh_backoff,
        a@.in_flight == a.in_flight@,
        a@.just_authorized == a.just_authorized,
        a@.granted_exchange_pending == a.granted_exchange_pending,
        a@.silent_failed == a.silent_failed,
        a@.startup_retry_at == a.startup_retry_at,
        a@.startup_retries == a.startup_retries,
        a@.startup_backoff == a.startup_backoff,
        a@.escalated == a.escalated,
        a@.device_grant == a.device_grant@,
        a@.help_url == text::opt_text(a.help_url),
        a@.idp_name == a.idp_name@,
        a@.source == a.source@,
        a@.fallback == a.fallback,
        a@.fallback_check_at == a.fallback_check_at,
        a@.grant_notified_at == a.grant_notified_at,
        a@.busy == a.busy,
{
}

} // verus!
