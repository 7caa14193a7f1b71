//! What the machine's state *means*, as a pure function of what it is.
//!
//! [`crate::agent`] decides what the machine does; this decides what a surface
//! may say about it.
//!
//! **There is no precedence anywhere here.** One ordered enum could only ever
//! report the loudest of several concurrently true facts, and reporting one true
//! thing so loudly that another disappears behind it is the fault this module
//! exists to remove. So [`Condition`] is one rung, [`Blocker`] is a list, and
//! [`Action`] is flat -- the surface decides what is primary, what is secondary,
//! and what it does not draw at all.

use crate::lists;
use vstd::prelude::*;

verus! {

/// What the machine can do about the realm right now.
#[derive(Clone, Copy, PartialEq, Eq, Debug, Structural)]
pub enum Condition {
    /// A usable ticket, and the supply behind it is intact.
    Working,
    /// No ticket, and none is expected here.
    NotStarted,
    /// A usable ticket and an intact supply, but transport has been failing for
    /// a while.
    Flaky,
    /// A usable ticket, but the supply is gone: it stops at a known time.
    WillStop,
    /// No ticket, and this machine is supposed to be working.
    Stopped,
}

/// What is missing *right now*. Immediate, unentailed blockers only.
///
/// Blockers **explain**; [`Action`]s are how a user resolves them. They are not
/// parallel lists and nothing lines up between them.
#[derive(Clone, Copy, PartialEq, Eq, Debug, Structural)]
pub enum Blocker {
    /// First run; nothing configured.
    NoBrokerUrl,
    /// Unreachable, TLS-refused, rate-limited or 5xx -- merged because all four
    /// clear on a retry, which is the only difference that changes what a user
    /// does.
    NetworkError,
    /// No discovery has landed here, so there is no realm.
    RealmUnknown,
    /// Windows does not know the realm (enrollment).
    RealmNotRegistered,
    /// Nothing to exchange with, and a browser is allowed.
    NoSupply,
    /// Delegated, so only a grant can get a ticket, and there isn't one.
    NoGrant,
    /// Policy refused this grant; re-authorizing cannot help.
    GrantRefused,
    /// The broker or the IdP said no to this identity.
    Refused,
    /// The ticket is fine, the drives are not. The agent's diagnosis, never a
    /// hunch -- [`Action::RestartWorkstation`] carries the hunch path.
    NtlmFallback,
}

/// What may be started. Flat and unordered; the surface presents or ignores.
#[derive(Clone, Copy, PartialEq, Eq, Debug, Structural)]
pub enum Action {
    SignIn,
    CreateGrant,
    ReinjectTicket,
    Cancel,
    DropKrbTicket,
    SignOutIdp,
    GiveUpGrant,
    Enroll,
    Reenroll,
    Unenroll,
    RestartWorkstation,
    OpenSettings,
}

impl Action {
    /// The two operations that do not take the agent's busy slot: the cloud
    /// logout and the revoke can overlap a sign-in. Everything else is one at a
    /// time.
    pub open spec fn slotless(self) -> bool {
        self is SignOutIdp || self is GiveUpGrant
    }

    pub fn outside_busy_slot(self) -> (r: bool)
        ensures
            r == self.slotless(),
    {
        matches!(self, Action::SignOutIdp | Action::GiveUpGrant)
    }
}

/// Which silent path stands behind the next renewal, and the only thing the
/// details drawer can say it with.
#[derive(Clone, Copy, PartialEq, Eq, Debug, Structural)]
pub enum Supply {
    Grant,
    WindowsSignIn,
    BrowserSignIn,
    /// Nothing to be silent with.
    Nothing,
}

/// The class of the last failure. The message carries the sentence; this decides
/// which blocker, if any, the sentence stands behind.
#[derive(Clone, Copy, PartialEq, Eq, Debug, Structural)]
pub enum Fault {
    Network,
    Refused,
    GrantRefused,
    /// A failure with no blocker of its own -- an empty WAM, an abandoned
    /// browser. It still counts as something being wrong, which is what the
    /// surface keys its fault ink and its log button on.
    Other,
}

/// Everything the description is a function of, gathered on the UI thread.
#[derive(Clone, Copy)]
pub struct Facts {
    /// A broker is configured, by policy, by the user or by DNS.
    pub broker: bool,
    /// A realm has been discovered, or was cached by an earlier run.
    pub realm_known: bool,
    /// The OS is registered for that realm.
    pub enrolled: bool,
    /// A live injected ticket, whatever the OS can do with it.
    pub ticket: bool,
    /// The ticket is far enough through its life that its end is near rather than
    /// distant. Read only by [`Condition::WillStop`].
    pub ticket_late: bool,
    /// **H** -- this machine is supposed to be working here.
    pub expected: bool,
    /// A `grant_for` target is set, so only a grant may get a ticket.
    pub delegated: bool,
    /// A grant is held and its browser-sign-in deadline has not passed.
    pub grant_valid: bool,
    /// An OIDC refresh token is in memory.
    pub refresh_token: bool,
    /// A browser session this agent put at the authority, and nothing else. Not
    /// a fact about the realm -- releasing it leaves every ticket in the cache
    /// and takes the silent supply instead, which is why it is gated on neither
    /// `usable` nor the broker.
    pub cloud_session: bool,
    /// The OS's own token store may be asked for a token: the user has not
    /// turned it off *and* this platform has one.
    pub windows_sign_in: bool,
    /// The deployment offers device grants at all, *and* this platform can hold
    /// one.
    pub grants_enabled: bool,
    /// Policy allows the NTLM-fallback machinery.
    pub ntlm_recovery: bool,
    /// A fallback was diagnosed and the unelevated restart did not clear it.
    pub ntlm_confirmed: bool,
    pub fault: Option<Fault>,
    /// Transport has been failing since the first failure with nothing landed
    /// after it, for longer than the agent's quiet period.
    pub flaky_elapsed: bool,
    /// This platform has an enrollment to offer.
    pub enrollment_platform: bool,
    /// A browser sign-in is waiting on its loopback redirect -- the one place
    /// the cancel flag is read, and therefore the only moment cancelling does
    /// anything.
    pub browser_leg: bool,
}

/// The whole of what a surface is given to render, plus the one fact it would
/// otherwise have to re-derive.
pub struct Description {
    pub condition: Condition,
    pub blockers: Vec<Blocker>,
    pub actions: Vec<Action>,
    pub supply: Supply,
    /// A ticket this machine holds could actually be spent. Not derivable from
    /// `blockers`, because `NoBrokerUrl` swallows the two that would say it.
    pub usable: bool,
}

impl Facts {
    /// **S** -- a silent renewal can land. Possession, not prediction, and named
    /// in the order the sign-in worker actually tries them. On a delegated
    /// machine only a grant counts.
    pub open spec fn supply_of(self) -> Supply {
        if self.grant_valid {
            Supply::Grant
        } else if self.delegated {
            Supply::Nothing
        } else if self.windows_sign_in {
            Supply::WindowsSignIn
        } else if self.refresh_token {
            Supply::BrowserSignIn
        } else {
            Supply::Nothing
        }
    }

    /// A ticket the OS cannot use is not access.
    pub open spec fn usable_of(self) -> bool {
        self.realm_known && self.enrolled
    }

    /// **T** -- holds a *usable* ticket.
    pub open spec fn access(self) -> bool {
        self.ticket && self.usable_of()
    }

    /// The derivation table: no network fact enters it but as `Flaky`, and a
    /// vanished supply is news only once the ticket is late.
    pub open spec fn condition_of(self) -> Condition {
        if !self.access() {
            if self.expected {
                Condition::Stopped
            } else {
                Condition::NotStarted
            }
        } else if self.supply_of() is Nothing {
            if self.ticket_late {
                Condition::WillStop
            } else {
                Condition::Working
            }
        } else if self.flaky_elapsed && self.fault == Some(Fault::Network) {
            Condition::Flaky
        } else {
            Condition::Working
        }
    }

    /// Whether `b` is missing right now, and not entailed by something else that is.
    pub open spec fn blocked_by(self, b: Blocker) -> bool {
        if b is NoBrokerUrl {
            !self.broker
        } else {
            self.broker && match b {
                Blocker::NoBrokerUrl => false,
                Blocker::RealmUnknown => !self.realm_known,
                Blocker::RealmNotRegistered => self.realm_known && !self.enrolled,
                Blocker::NetworkError => self.fault == Some(Fault::Network),
                Blocker::Refused => self.fault == Some(Fault::Refused),
                Blocker::GrantRefused => self.fault == Some(Fault::GrantRefused),
                Blocker::NoGrant => self.realm_known && self.delegated && !self.grant_valid,
                Blocker::NoSupply => !self.delegated && self.supply_of() is Nothing,
                Blocker::NtlmFallback => self.ntlm_confirmed,
            }
        }
    }

    /// Whether `a` may be started.
    pub open spec fn offered(self, a: Action) -> bool {
        match a {
            Action::SignOutIdp => self.cloud_session,
            Action::Cancel => self.browser_leg,
            Action::OpenSettings => !self.broker,
            _ => self.broker && match a {
                Action::Enroll => self.enrollment_platform && self.realm_known && !self.enrolled,
                Action::Reenroll | Action::Unenroll => self.enrollment_platform && self.realm_known
                    && self.enrolled,
                Action::RestartWorkstation => self.ntlm_recovery && self.realm_known,
                Action::CreateGrant => self.usable_of() && self.grants_enabled
                    && !self.blocked_by(Blocker::GrantRefused),
                Action::SignIn => self.usable_of() && !self.delegated,
                Action::ReinjectTicket => self.usable_of() && !(self.supply_of() is Nothing),
                Action::DropKrbTicket => self.access(),
                Action::GiveUpGrant => self.grant_valid,
                _ => false,
            },
        }
    }

    /// The blockers that stand, in the order they are listed.
    pub open spec fn blockers_of(self) -> Seq<Blocker> {
        seq![
            Blocker::NoBrokerUrl,
            Blocker::RealmUnknown,
            Blocker::RealmNotRegistered,
            Blocker::NetworkError,
            Blocker::Refused,
            Blocker::GrantRefused,
            Blocker::NoGrant,
            Blocker::NoSupply,
            Blocker::NtlmFallback,
        ].filter(|b: Blocker| self.blocked_by(b))
    }

    /// The actions on offer, in the order they are listed.
    pub open spec fn actions_of(self) -> Seq<Action> {
        seq![
            Action::OpenSettings,
            Action::Reenroll,
            Action::Unenroll,
            Action::Enroll,
            Action::RestartWorkstation,
            Action::CreateGrant,
            Action::SignIn,
            Action::ReinjectTicket,
            Action::DropKrbTicket,
            Action::GiveUpGrant,
            Action::SignOutIdp,
            Action::Cancel,
        ].filter(|a: Action| self.offered(a))
    }

    pub fn supply(&self) -> (r: Supply)
        ensures
            r == self.supply_of(),
    {
        if self.grant_valid {
            return Supply::Grant;
        }
        // Delegated, so nothing else may get a ticket: a refresh token in memory
        // and a Windows account are both worth nothing here.
        if self.delegated {
            return Supply::Nothing;
        }
        if self.windows_sign_in {
            return Supply::WindowsSignIn;
        }
        if self.refresh_token {
            return Supply::BrowserSignIn;
        }
        Supply::Nothing
    }

    pub fn usable(&self) -> (r: bool)
        ensures
            r == self.usable_of(),
    {
        self.realm_known && self.enrolled
    }

    pub fn holds_access(&self) -> (r: bool)
        ensures
            r == self.access(),
    {
        self.ticket && self.usable()
    }

    fn is_blocked_by(&self, b: Blocker) -> (r: bool)
        ensures
            r == self.blocked_by(b),
    {
        match b {
            Blocker::NoBrokerUrl => !self.broker,
            Blocker::RealmUnknown => self.broker && !self.realm_known,
            Blocker::RealmNotRegistered => self.broker && self.realm_known && !self.enrolled,
            Blocker::NetworkError => self.broker && matches!(self.fault, Some(Fault::Network)),
            Blocker::Refused => self.broker && matches!(self.fault, Some(Fault::Refused)),
            Blocker::GrantRefused => self.broker && matches!(self.fault, Some(Fault::GrantRefused)),
            Blocker::NoGrant => self.broker && self.realm_known && self.delegated
                && !self.grant_valid,
            Blocker::NoSupply => self.broker && !self.delegated && matches!(
                self.supply(),
                Supply::Nothing
            ),
            Blocker::NtlmFallback => self.broker && self.ntlm_confirmed,
        }
    }

    fn offers(&self, a: Action) -> (r: bool)
        ensures
            r == self.offered(a),
    {
        match a {
            Action::SignOutIdp => self.cloud_session,
            Action::Cancel => self.browser_leg,
            Action::OpenSettings => !self.broker,
            Action::Enroll => self.broker && self.enrollment_platform && self.realm_known
                && !self.enrolled,
            Action::Reenroll | Action::Unenroll => self.broker && self.enrollment_platform
                && self.realm_known && self.enrolled,
            Action::RestartWorkstation => self.broker && self.ntlm_recovery && self.realm_known,
            Action::CreateGrant => self.broker && self.usable() && self.grants_enabled
                && !self.is_blocked_by(Blocker::GrantRefused),
            Action::SignIn => self.broker && self.usable() && !self.delegated,
            Action::ReinjectTicket => self.broker && self.usable() && !matches!(
                self.supply(),
                Supply::Nothing
            ),
            Action::DropKrbTicket => self.broker && self.holds_access(),
            Action::GiveUpGrant => self.broker && self.grant_valid,
        }
    }
}

pub fn describe(f: &Facts) -> (d: Description)
    ensures
        d.condition == f.condition_of(),
        d.blockers@ == f.blockers_of(),
        d.actions@ == f.actions_of(),
        d.supply == f.supply_of(),
        d.usable == f.usable_of(),
{
    let supply = f.supply();
    Description {
        condition: condition(f, supply),
        blockers: blockers(f),
        actions: actions(f),
        supply,
        usable: f.usable(),
    }
}

fn condition(f: &Facts, supply: Supply) -> (r: Condition)
    requires
        supply == f.supply_of(),
    ensures
        r == f.condition_of(),
{
    // A duration, not a distance. The schedule re-arms from the ticket midpoint,
    // so a "the next attempt is far away" rule would go quiet exactly as the
    // machine approaches the lapse.
    let flaky = f.flaky_elapsed && matches!(f.fault, Some(Fault::Network));
    let silent = !matches!(supply, Supply::Nothing);
    if f.holds_access() {
        // The end of an unsupplied ticket is a certainty from the start, but it
        // is worth the warning color only when it is late.
        if !silent && f.ticket_late {
            Condition::WillStop
        } else if silent && flaky {
            Condition::Flaky
        } else {
            Condition::Working
        }
    } else if f.expected {
        Condition::Stopped
    } else {
        Condition::NotStarted
    }
}

fn blockers(f: &Facts) -> (out: Vec<Blocker>)
    ensures
        out@ == f.blockers_of(),
{
    let all: Vec<Blocker> = vec![
        Blocker::NoBrokerUrl,
        Blocker::RealmUnknown,
        Blocker::RealmNotRegistered,
        Blocker::NetworkError,
        Blocker::Refused,
        Blocker::GrantRefused,
        Blocker::NoGrant,
        Blocker::NoSupply,
        Blocker::NtlmFallback,
    ];
    let ghost p = |b: Blocker| f.blocked_by(b);
    let mut out: Vec<Blocker> = Vec::new();
    let mut i: usize = 0;
    proof {
        assert(all@.take(0) =~= Seq::empty());
        lists::filter_empty(p);
    }
    while i < all.len()
        invariant
            i <= all@.len(),
            p == (|b: Blocker| f.blocked_by(b)),
            out@ == all@.take(i as int).filter(p),
        decreases all@.len() - i,
    {
        let b = all[i];
        proof {
            assert(all@.take(i + 1) =~= all@.take(i as int).push(b));
            lists::filter_push(all@.take(i as int), b, p);
        }
        if f.is_blocked_by(b) {
            out.push(b);
        }
        i = i + 1;
    }
    assert(all@.take(i as int) =~= all@);
    out
}

fn actions(f: &Facts) -> (out: Vec<Action>)
    ensures
        out@ == f.actions_of(),
{
    let all: Vec<Action> = vec![
        Action::OpenSettings,
        Action::Reenroll,
        Action::Unenroll,
        Action::Enroll,
        Action::RestartWorkstation,
        Action::CreateGrant,
        Action::SignIn,
        Action::ReinjectTicket,
        Action::DropKrbTicket,
        Action::GiveUpGrant,
        Action::SignOutIdp,
        Action::Cancel,
    ];
    let ghost p = |a: Action| f.offered(a);
    let mut out: Vec<Action> = Vec::new();
    let mut i: usize = 0;
    proof {
        assert(all@.take(0) =~= Seq::empty());
        lists::filter_empty(p);
    }
    while i < all.len()
        invariant
            i <= all@.len(),
            p == (|a: Action| f.offered(a)),
            out@ == all@.take(i as int).filter(p),
        decreases all@.len() - i,
    {
        let a = all[i];
        proof {
            assert(all@.take(i + 1) =~= all@.take(i as int).push(a));
            lists::filter_push(all@.take(i as int), a, p);
        }
        if f.offers(a) {
            out.push(a);
        }
        i = i + 1;
    }
    assert(all@.take(i as int) =~= all@);
    out
}

/// Whether `a` is among `list`.
pub fn lists_action(list: &Vec<Action>, a: Action) -> (r: bool)
    ensures
        r == list@.contains(a),
{
    let mut i: usize = 0;
    while i < list.len()
        invariant
            i <= list@.len(),
            forall|k: int| 0 <= k < i ==> list@[k] != a,
        decreases list@.len() - i,
    {
        if list[i] == a {
            return true;
        }
        i = i + 1;
    }
    false
}

/// Whether `b` is among `list`.
pub fn lists_blocker(list: &Vec<Blocker>, b: Blocker) -> (r: bool)
    ensures
        r == list@.contains(b),
{
    let mut i: usize = 0;
    while i < list.len()
        invariant
            i <= list@.len(),
            forall|k: int| 0 <= k < i ==> list@[k] != b,
        decreases list@.len() - i,
    {
        if list[i] == b {
            return true;
        }
        i = i + 1;
    }
    false
}

// ------------------------------------------------------------------------ laws

/// The list of offers holds exactly what may be started, each of them once.
pub proof fn law_the_offers_are_what_may_be_started(f: Facts)
    ensures
        forall|a: Action| f.actions_of().contains(a) <==> #[trigger] f.offered(a),
        f.actions_of().no_duplicates(),
{
    let all = seq![
        Action::OpenSettings,
        Action::Reenroll,
        Action::Unenroll,
        Action::Enroll,
        Action::RestartWorkstation,
        Action::CreateGrant,
        Action::SignIn,
        Action::ReinjectTicket,
        Action::DropKrbTicket,
        Action::GiveUpGrant,
        Action::SignOutIdp,
        Action::Cancel,
    ];
    let p = |a: Action| f.offered(a);
    assert forall|a: Action| f.actions_of().contains(a) <==> #[trigger] f.offered(a) by {
        assert(all[0] == Action::OpenSettings && all[1] == Action::Reenroll && all[2]
            == Action::Unenroll && all[3] == Action::Enroll && all[4] == Action::RestartWorkstation
            && all[5] == Action::CreateGrant && all[6] == Action::SignIn && all[7]
            == Action::ReinjectTicket && all[8] == Action::DropKrbTicket && all[9]
            == Action::GiveUpGrant && all[10] == Action::SignOutIdp && all[11] == Action::Cancel);
        assert(all.contains(a));
        lists::filter_holds(all, p, a);
    }
    assert(all.no_duplicates());
    lists::filter_distinct(all, p);
}

/// The list of blockers holds exactly what is missing, each of them once.
pub proof fn law_the_blockers_are_what_is_missing(f: Facts)
    ensures
        forall|b: Blocker| f.blockers_of().contains(b) <==> #[trigger] f.blocked_by(b),
        f.blockers_of().no_duplicates(),
{
    let all = seq![
        Blocker::NoBrokerUrl,
        Blocker::RealmUnknown,
        Blocker::RealmNotRegistered,
        Blocker::NetworkError,
        Blocker::Refused,
        Blocker::GrantRefused,
        Blocker::NoGrant,
        Blocker::NoSupply,
        Blocker::NtlmFallback,
    ];
    let p = |b: Blocker| f.blocked_by(b);
    assert forall|b: Blocker| f.blockers_of().contains(b) <==> #[trigger] f.blocked_by(b) by {
        assert(all[0] == Blocker::NoBrokerUrl && all[1] == Blocker::RealmUnknown && all[2]
            == Blocker::RealmNotRegistered && all[3] == Blocker::NetworkError && all[4]
            == Blocker::Refused && all[5] == Blocker::GrantRefused && all[6] == Blocker::NoGrant
            && all[7] == Blocker::NoSupply && all[8] == Blocker::NtlmFallback);
        assert(all.contains(b));
        lists::filter_holds(all, p, b);
    }
    assert(all.no_duplicates());
    lists::filter_distinct(all, p);
}

/// Nothing that gets or spends a ticket is offered while one could not be used.
pub proof fn law_an_unusable_ticket_is_not_access(f: Facts)
    requires
        !f.usable_of(),
    ensures
        !f.access(),
        f.condition_of() is Stopped || f.condition_of() is NotStarted,
        !f.actions_of().contains(Action::SignIn),
        !f.actions_of().contains(Action::ReinjectTicket),
        !f.actions_of().contains(Action::CreateGrant),
        !f.actions_of().contains(Action::DropKrbTicket),
{
    law_the_offers_are_what_may_be_started(f);
    assert(!f.offered(Action::SignIn) && !f.offered(Action::ReinjectTicket) && !f.offered(
        Action::CreateGrant,
    ) && !f.offered(Action::DropKrbTicket));
}

/// A machine with no broker says that one thing, and nothing that follows from it.
pub proof fn law_entailed_blockers_are_not_emitted(f: Facts)
    ensures
        !f.broker ==> f.blockers_of() == seq![Blocker::NoBrokerUrl],
        f.blockers_of().contains(Blocker::RealmNotRegistered) ==> f.realm_known,
{
    law_the_blockers_are_what_is_missing(f);
    if !f.broker {
        let s = f.blockers_of();
        assert(f.blocked_by(Blocker::NoBrokerUrl));
        assert(s.contains(Blocker::NoBrokerUrl));
        assert forall|i: int| 0 <= i < s.len() implies s[i] == Blocker::NoBrokerUrl by {
            assert(s.contains(s[i]));
            assert(f.blocked_by(s[i]));
        }
        if s.len() > 1 {
            assert(s[0] == s[1]);
        }
        assert(s =~= seq![Blocker::NoBrokerUrl]);
    }
    if f.blockers_of().contains(Blocker::RealmNotRegistered) {
        assert(f.blocked_by(Blocker::RealmNotRegistered));
    }
}

/// Two blockers mean that nothing on offer helps: a refused grant is never
/// offered again, and an unknown realm only waits.
pub proof fn law_two_blockers_imply_no_action(f: Facts)
    ensures
        f.blockers_of().contains(Blocker::GrantRefused) ==> !f.actions_of().contains(
            Action::CreateGrant,
        ),
        f.blockers_of().contains(Blocker::RealmUnknown) ==> forall|a: Action|
            #[trigger] f.actions_of().contains(a) ==> a is GiveUpGrant || a is SignOutIdp
                || a is Cancel,
{
    law_the_blockers_are_what_is_missing(f);
    law_the_offers_are_what_may_be_started(f);
    assert(f.blockers_of().contains(Blocker::GrantRefused) <==> f.blocked_by(Blocker::GrantRefused));
    assert(f.actions_of().contains(Action::CreateGrant) <==> f.offered(Action::CreateGrant));
    if f.blockers_of().contains(Blocker::RealmUnknown) {
        assert(f.blocked_by(Blocker::RealmUnknown));
        assert forall|a: Action| #[trigger] f.actions_of().contains(a) implies a is GiveUpGrant
            || a is SignOutIdp || a is Cancel by {
            assert(f.offered(a));
        }
    }
}

/// A delegated machine never signs in, and only a grant counts as its supply.
pub proof fn law_a_delegated_machine_uses_its_grant_or_nothing(f: Facts)
    requires
        f.delegated,
    ensures
        f.supply_of() == (if f.grant_valid {
            Supply::Grant
        } else {
            Supply::Nothing
        }),
        !f.actions_of().contains(Action::SignIn),
        !f.blockers_of().contains(Blocker::NoSupply),
{
    law_the_blockers_are_what_is_missing(f);
    law_the_offers_are_what_may_be_started(f);
    assert(!f.offered(Action::SignIn));
    assert(!f.blocked_by(Blocker::NoSupply));
}

/// Cancelling is offered exactly while a browser leg runs, and leaving the cloud
/// exactly while there is a session to leave -- whatever else is true.
pub proof fn law_cancel_and_cloud_sign_out_follow_one_fact_each(f: Facts)
    ensures
        f.actions_of().contains(Action::Cancel) <==> f.browser_leg,
        f.actions_of().contains(Action::SignOutIdp) <==> f.cloud_session,
{
    law_the_offers_are_what_may_be_started(f);
    assert(f.offered(Action::Cancel) == f.browser_leg);
    assert(f.offered(Action::SignOutIdp) == f.cloud_session);
}

/// A network outage never takes access away: whatever the transport does, the
/// condition stays what it was or moves between `Working` and `Flaky`.
pub proof fn law_the_network_moves_no_rung(f: Facts, fault: Option<Fault>, elapsed: bool)
    ensures
        ({
            let g = Facts { fault, flaky_elapsed: elapsed, ..f };
            g.condition_of() == f.condition_of() || ((f.condition_of() is Working
                || f.condition_of() is Flaky) && (g.condition_of() is Working
                || g.condition_of() is Flaky))
        }),
{
}

/// Each offer stands on facts, and on these alone: what a broker, a realm that this
/// machine is enrolled in, a supply and a ticket make possible. The three that stand
/// without a broker are the one that gets one, the one that leaves the cloud and the one
/// that stops waiting for a browser.
pub proof fn law_every_offer_stands_on_facts(f: Facts)
    ensures
        f.actions_of().contains(Action::OpenSettings) <==> !f.broker,
        f.actions_of().contains(Action::SignOutIdp) <==> f.cloud_session,
        f.actions_of().contains(Action::Cancel) <==> f.browser_leg,
        f.actions_of().contains(Action::DropKrbTicket) <==> f.broker && f.ticket && f.realm_known
            && f.enrolled,
        f.actions_of().contains(Action::SignIn) <==> f.broker && f.realm_known && f.enrolled
            && !f.delegated,
        f.actions_of().contains(Action::ReinjectTicket) <==> f.broker && f.realm_known
            && f.enrolled && (f.grant_valid || (!f.delegated && (f.windows_sign_in
            || f.refresh_token))),
        f.actions_of().contains(Action::CreateGrant) <==> f.broker && f.realm_known && f.enrolled
            && f.grants_enabled && f.fault != Some(Fault::GrantRefused),
        f.actions_of().contains(Action::GiveUpGrant) <==> f.broker && f.grant_valid,
        f.actions_of().contains(Action::Enroll) <==> f.broker && f.enrollment_platform
            && f.realm_known && !f.enrolled,
        f.actions_of().contains(Action::Reenroll) <==> f.broker && f.enrollment_platform
            && f.realm_known && f.enrolled,
        f.actions_of().contains(Action::Unenroll) <==> f.broker && f.enrollment_platform
            && f.realm_known && f.enrolled,
        f.actions_of().contains(Action::RestartWorkstation) <==> f.broker && f.ntlm_recovery
            && f.realm_known,
{
    law_the_offers_are_what_may_be_started(f);
    assert(f.offered(Action::OpenSettings) <==> f.actions_of().contains(Action::OpenSettings));
    assert(f.offered(Action::SignOutIdp) <==> f.actions_of().contains(Action::SignOutIdp));
    assert(f.offered(Action::Cancel) <==> f.actions_of().contains(Action::Cancel));
    assert(f.offered(Action::DropKrbTicket) <==> f.actions_of().contains(Action::DropKrbTicket));
    assert(f.offered(Action::SignIn) <==> f.actions_of().contains(Action::SignIn));
    assert(f.offered(Action::ReinjectTicket) <==> f.actions_of().contains(Action::ReinjectTicket));
    assert(f.offered(Action::CreateGrant) <==> f.actions_of().contains(Action::CreateGrant));
    assert(f.offered(Action::GiveUpGrant) <==> f.actions_of().contains(Action::GiveUpGrant));
    assert(f.offered(Action::Enroll) <==> f.actions_of().contains(Action::Enroll));
    assert(f.offered(Action::Reenroll) <==> f.actions_of().contains(Action::Reenroll));
    assert(f.offered(Action::Unenroll) <==> f.actions_of().contains(Action::Unenroll));
    assert(f.offered(Action::RestartWorkstation) <==> f.actions_of().contains(
        Action::RestartWorkstation,
    ));
}

/// Each blocker is one missing fact, said where a broker is there to miss it with: a
/// machine without one is told that and nothing else.
pub proof fn law_every_blocker_is_a_missing_fact(f: Facts)
    ensures
        f.blockers_of().contains(Blocker::NoBrokerUrl) <==> !f.broker,
        f.blockers_of().contains(Blocker::RealmUnknown) <==> f.broker && !f.realm_known,
        f.blockers_of().contains(Blocker::RealmNotRegistered) <==> f.broker && f.realm_known
            && !f.enrolled,
        f.blockers_of().contains(Blocker::NetworkError) <==> f.broker && f.fault == Some(
            Fault::Network,
        ),
        f.blockers_of().contains(Blocker::Refused) <==> f.broker && f.fault == Some(Fault::Refused),
        f.blockers_of().contains(Blocker::GrantRefused) <==> f.broker && f.fault == Some(
            Fault::GrantRefused,
        ),
        f.blockers_of().contains(Blocker::NoGrant) <==> f.broker && f.realm_known && f.delegated
            && !f.grant_valid,
        f.blockers_of().contains(Blocker::NoSupply) <==> f.broker && !f.delegated && !f.grant_valid
            && !f.windows_sign_in && !f.refresh_token,
        f.blockers_of().contains(Blocker::NtlmFallback) <==> f.broker && f.ntlm_confirmed,
{
    law_the_blockers_are_what_is_missing(f);
    assert(f.blocked_by(Blocker::NoBrokerUrl) <==> f.blockers_of().contains(Blocker::NoBrokerUrl));
    assert(f.blocked_by(Blocker::RealmUnknown) <==> f.blockers_of().contains(
        Blocker::RealmUnknown,
    ));
    assert(f.blocked_by(Blocker::RealmNotRegistered) <==> f.blockers_of().contains(
        Blocker::RealmNotRegistered,
    ));
    assert(f.blocked_by(Blocker::NetworkError) <==> f.blockers_of().contains(
        Blocker::NetworkError,
    ));
    assert(f.blocked_by(Blocker::Refused) <==> f.blockers_of().contains(Blocker::Refused));
    assert(f.blocked_by(Blocker::GrantRefused) <==> f.blockers_of().contains(
        Blocker::GrantRefused,
    ));
    assert(f.blocked_by(Blocker::NoGrant) <==> f.blockers_of().contains(Blocker::NoGrant));
    assert(f.blocked_by(Blocker::NoSupply) <==> f.blockers_of().contains(Blocker::NoSupply));
    assert(f.blocked_by(Blocker::NtlmFallback) <==> f.blockers_of().contains(
        Blocker::NtlmFallback,
    ));
}

/// The condition is one rung, and what puts a machine on it: without a ticket that can be
/// spent it has stopped if it was supposed to be working and has not started if it was
/// not. With one, a supply that is gone is news once the ticket is late, and a transport
/// that has long been failing is news while there is a supply.
pub proof fn law_every_rung_has_its_reason(f: Facts)
    ensures
        ({
            let spendable = f.ticket && f.realm_known && f.enrolled;
            let supplied = f.grant_valid || (!f.delegated && (f.windows_sign_in
                || f.refresh_token));
            let failing = f.flaky_elapsed && f.fault == Some(Fault::Network);
            &&& f.condition_of() is Stopped <==> !spendable && f.expected
            &&& f.condition_of() is NotStarted <==> !spendable && !f.expected
            &&& f.condition_of() is WillStop <==> spendable && !supplied && f.ticket_late
            &&& f.condition_of() is Flaky <==> spendable && supplied && failing
            &&& f.condition_of() is Working <==> spendable && !(!supplied && f.ticket_late) && !(
            supplied && failing)
        }),
{
}

/// The supply is the first of three that this machine has -- its grant, the platform's own
/// sign-in, a refresh token -- and on a delegated machine the grant or nothing. A ticket
/// can be used exactly where the machine is enrolled in a realm it knows.
pub proof fn law_a_supply_is_the_first_that_is_there(f: Facts)
    ensures
        f.supply_of() is Grant <==> f.grant_valid,
        f.supply_of() is WindowsSignIn <==> !f.grant_valid && !f.delegated && f.windows_sign_in,
        f.supply_of() is BrowserSignIn <==> !f.grant_valid && !f.delegated && !f.windows_sign_in
            && f.refresh_token,
        f.supply_of() is Nothing <==> !f.grant_valid && (f.delegated || (!f.windows_sign_in
            && !f.refresh_token)),
        f.usable_of() <==> f.realm_known && f.enrolled,
{
}

/// Where a blocker stands among the others.
pub open spec fn blocker_rank(b: Blocker) -> int {
    match b {
        Blocker::NoBrokerUrl => 0,
        Blocker::RealmUnknown => 1,
        Blocker::RealmNotRegistered => 2,
        Blocker::NetworkError => 3,
        Blocker::Refused => 4,
        Blocker::GrantRefused => 5,
        Blocker::NoGrant => 6,
        Blocker::NoSupply => 7,
        Blocker::NtlmFallback => 8,
    }
}

/// Blockers are told in one order: what is missing first on the way to a ticket comes
/// first.
pub proof fn law_blockers_keep_their_order(f: Facts, i: int, j: int)
    requires
        0 <= i < j < f.blockers_of().len(),
    ensures
        blocker_rank(f.blockers_of()[i]) < blocker_rank(f.blockers_of()[j]),
{
    let all = seq![
        Blocker::NoBrokerUrl,
        Blocker::RealmUnknown,
        Blocker::RealmNotRegistered,
        Blocker::NetworkError,
        Blocker::Refused,
        Blocker::GrantRefused,
        Blocker::NoGrant,
        Blocker::NoSupply,
        Blocker::NtlmFallback,
    ];
    lists::filter_keeps_order(
        all,
        |b: Blocker| f.blocked_by(b),
        |b: Blocker| blocker_rank(b),
        i,
        j,
    );
}

} // verus!
