//! What the host is told: the snapshot a surface draws itself from.
//!
//! [`status`] is a function of the agent's state and one reading of the clock,
//! asked whenever something might have changed. It carries no view of its own --
//! a handful of independent values and the clocks behind them, which each platform
//! arranges into its own surface.

use super::schedule;
use super::schedule::FLAKY_QUIET_SECS;
use super::{host_of, Agent, AgentModel, NtlmFallback};
use crate::describe::{describe, Action, Blocker, Condition, Facts, Supply};
use crate::sentence::Sentence;
use crate::text;
use crate::text::or_empty;
use vstd::prelude::*;
use vstd::string::*;

verus! {

/// What only the process and the platform know.
#[derive(Clone, Copy, PartialEq, Eq, Debug, Structural)]
pub struct Surroundings {
    /// An OIDC refresh token is in memory.
    pub refresh_token: bool,
    /// A browser sign-in is waiting on its loopback redirect.
    pub browser_leg: bool,
    /// This platform can hold a device key.
    pub device_keys: bool,
}

/// Everything time-dependent about the ticket this machine holds, worked out once
/// against one reading of the clock.
#[derive(Clone, Copy, PartialEq, Eq, Debug, Structural)]
pub struct TicketClock {
    /// End Time, in Unix seconds.
    pub end: i64,
    /// Seconds left, clamped at 0. A lapsed ticket has 0 left; it is still a ticket.
    pub remaining: i64,
    /// How long the ticket lives in all, never below one second: what is left of
    /// it is `remaining` of this, or all of it.
    pub lifetime: i64,
    /// The KDC granted a renewable ticket.
    pub renewable: bool,
}

/// An immutable snapshot for rendering. The UI holds one of these for the duration
/// of a repaint and never reads agent state directly.
///
/// Every judgment in it is made here, once. A surface that re-derived any of these
/// would be a second place the lifecycle is settled.
pub struct Status {
    /// The headline, the icon, and the severity of the explanation block.
    pub condition: Condition,
    /// What is missing right now. Unordered: ordering is not a fact.
    pub blockers: Vec<Blocker>,
    /// What may be offered at all. The surface decides what is primary.
    pub actions: Vec<Action>,
    /// What is running, in the same vocabulary -- so a control is disabled rather
    /// than hidden. An action can be in both lists.
    pub in_flight: Vec<Action>,
    /// Which silent path stands behind the next renewal.
    pub supply: Supply,
    /// A ticket this machine holds could actually be spent.
    pub usable: bool,
    pub realm: String,
    /// Which source of the realm this machine authenticates against.
    pub source: String,
    /// Broker host. Empty when unconfigured.
    pub broker_host: String,
    /// Where the menu's *Help* goes, when the deployment publishes a page. Empty
    /// otherwise, which the surface reads as "use your own".
    pub help_url: String,
    pub idp_name: String,
    pub principal: String,
    /// The injected ticket's clock, and `None` when this machine holds no ticket at
    /// all -- which is not the same as holding a lapsed one.
    pub ticket: Option<TicketClock>,
    /// The soonest the agent will try again, in Unix seconds. A floor, not a
    /// ceiling.
    pub next_attempt_at_earliest: Option<i64>,
    /// A failure's sentence, or a note after a deliberate act.
    pub message: Sentence,
    /// Something is *wrong*, as opposed to something merely being said.
    pub fault: bool,
    /// This machine holds a device grant, whatever its deadline says.
    pub holds_grant: bool,
    /// That grant's browser-sign-in deadline in Unix seconds.
    pub grant_expiry: Option<i64>,
    /// Whom this machine authorizes itself for, when it is delegated.
    pub grant_target: String,
    /// A grant was just created and nothing has happened since.
    pub just_authorized: bool,
}

/// Whether a ticket is past four fifths of its life.
pub open spec fn is_late(start: i64, end: i64, now: i64) -> bool {
    let lifetime = if end - start > 1 {
        end - start
    } else {
        1
    };
    end != 0 && (now - start) * 5 >= lifetime * 4
}

/// A deadline that has not passed.
pub open spec fn ahead(deadline: Option<i64>, now: i64) -> bool {
    deadline matches Some(t) && t > now
}

/// The browser-sign-in deadline of the grant this machine holds.
pub open spec fn grant_expiry_of(m: AgentModel) -> Option<i64> {
    match m.settings.file.grant {
        Some(g) => Some(g.sign_in_required_by),
        None => None,
    }
}

/// The facts that the description is made of.
pub open spec fn facts_of(m: AgentModel, w: Surroundings, now: i64) -> Facts {
    Facts {
        broker: m.settings.broker_url() is Some,
        realm_known: m.kerberos.realm.len() > 0,
        enrolled: m.enroll_state is Enrolled,
        ticket: m.live(now),
        ticket_late: is_late(m.start, m.end, now),
        expected: m.expected(),
        delegated: m.settings.grant_for() is Some,
        grant_valid: ahead(grant_expiry_of(m), now),
        refresh_token: w.refresh_token,
        cloud_session: m.settings.file.browser_session,
        windows_sign_in: m.settings.windows_sign_in(),
        grants_enabled: m.device_grant.is_enabled() && w.device_keys,
        ntlm_recovery: m.settings.ntlm_fallback_recovery(),
        ntlm_confirmed: m.fallback is Confirmed,
        fault: m.fault,
        flaky_elapsed: m.first_failure_at matches Some(t) && now - t > FLAKY_QUIET_SECS,
        enrollment_platform: m.settings.windows,
        browser_leg: w.browser_leg,
    }
}

/// The ticket's clock.
pub open spec fn clock_of(m: AgentModel, now: i64) -> Option<TicketClock> {
    if m.end == 0 {
        None
    } else {
        Some(
            TicketClock {
                end: m.end,
                remaining: (if m.end > now {
                    m.end - now
                } else {
                    0
                }) as i64,
                lifetime: (if m.end - m.start > 1 {
                    m.end - m.start
                } else {
                    1
                }) as i64,
                renewable: m.renew_till > m.end,
            },
        )
    }
}

/// Whether `r` is the earliest of the clocks that run.
pub open spec fn earliest(clocks: Seq<Option<i64>>, r: Option<i64>) -> bool {
    match r {
        None => forall|i: int| 0 <= i < clocks.len() ==> (#[trigger] clocks[i]) is None,
        Some(t) => {
            &&& clocks.contains(Some(t))
            &&& forall|i: int|
                0 <= i < clocks.len() ==> ((#[trigger] clocks[i]) matches Some(u) ==> t <= u)
        },
    }
}

/// The soonest of the schedule clocks, any of which may not be running.
pub fn soonest(clocks: [Option<i64>; 3]) -> (r: Option<i64>)
    ensures
        earliest(clocks@, r),
{
    let mut best: Option<i64> = None;
    let mut i: usize = 0;
    assert(clocks@.take(0) =~= Seq::empty());
    while i < 3
        invariant
            i <= 3,
            clocks@.len() == 3,
            earliest(clocks@.take(i as int), best),
        decreases 3 - i,
    {
        let ghost before = clocks@.take(i as int);
        let ghost after = clocks@.take(i + 1);
        assert(after =~= before.push(clocks@[i as int]));
        assert(after[i as int] == clocks@[i as int]);
        let was: Option<i64> = best;
        if let Some(t) = clocks[i] {
            best = match best {
                Some(b) => if t < b {
                    Some(t)
                } else {
                    Some(b)
                },
                None => Some(t),
            };
        }
        proof {
            if let Some(b) = was {
                let k = choose|k: int| 0 <= k < before.len() && before[k] == Some(b);
                assert(after[k] == Some(b));
            }
            assert forall|k: int| 0 <= k < after.len() implies ((#[trigger] after[k]) matches Some(
                u,
            ) ==> best is Some && best->0 <= u) by {
                if k < before.len() {
                    assert(after[k] == before[k]);
                }
            }
        }
        i = i + 1;
    }
    assert(clocks@.take(3) =~= clocks@);
    best
}

impl Agent {
    /// The facts that the description is made of.
    pub fn facts(&self, w: Surroundings, now: i64) -> (r: Facts)
        requires
            schedule::clock(now),
            self@.sound(),
        ensures
            r == facts_of(self@, w, now),
    {
        let lifetime: i64 = if self.end - self.start > 1 {
            self.end - self.start
        } else {
            1
        };
        let elapsed: i128 = now as i128 - self.start as i128;
        Facts {
            broker: self.settings.broker_url().is_some(),
            realm_known: !self.kerberos.realm.as_str().is_empty(),
            enrolled: !self.enroll_state.needs_action(),
            ticket: self.holds_live_ticket(now),
            ticket_late: self.end != 0 && elapsed * 5 >= lifetime as i128 * 4,
            expected: self.expected(),
            delegated: self.settings.grant_for().is_some(),
            grant_valid: match self.settings.grant() {
                Some(g) => g.sign_in_required_by > now,
                None => false,
            },
            refresh_token: w.refresh_token,
            cloud_session: self.settings.browser_session(),
            windows_sign_in: self.settings.windows_sign_in(),
            grants_enabled: self.device_grant.enabled() && w.device_keys,
            ntlm_recovery: self.settings.ntlm_fallback_recovery(),
            ntlm_confirmed: matches!(self.fallback, NtlmFallback::Confirmed),
            fault: self.fault,
            flaky_elapsed: match self.first_failure_at {
                Some(t) => now - t > FLAKY_QUIET_SECS,
                None => false,
            },
            enrollment_platform: self.settings.windows,
            browser_leg: w.browser_leg,
        }
    }

    fn ticket_clock(&self, now: i64) -> (r: Option<TicketClock>)
        requires
            schedule::clock(now),
            self@.sound(),
        ensures
            r == clock_of(self@, now),
    {
        if self.end == 0 {
            return None;
        }
        Some(
            TicketClock {
                end: self.end,
                remaining: if self.end > now {
                    self.end - now
                } else {
                    0
                },
                lifetime: if self.end - self.start > 1 {
                    self.end - self.start
                } else {
                    1
                },
                renewable: self.renew_till > self.end,
            },
        )
    }
}

/// A copy of a list of actions.
pub fn copied_actions(v: &Vec<Action>) -> (r: Vec<Action>)
    ensures
        r@ == v@,
{
    let mut out: Vec<Action> = Vec::new();
    let mut i: usize = 0;
    while i < v.len()
        invariant
            i <= v@.len(),
            out@ == v@.take(i as int),
        decreases v@.len() - i,
    {
        out.push(v[i]);
        i = i + 1;
        assert(v@.take(i as int) =~= v@.take(i - 1).push(v@[i - 1]));
    }
    assert(v@.take(i as int) =~= v@);
    out
}

/// The snapshot.
pub fn status(a: &Agent, w: Surroundings, now: i64) -> (r: Status)
    requires
        schedule::clock(now),
        a@.sound(),
    ensures
        ({
            let f = facts_of(a@, w, now);
            &&& r.condition == f.condition_of()
            &&& r.blockers@ == f.blockers_of()
            &&& r.actions@ == f.actions_of()
            &&& r.supply == f.supply_of()
            &&& r.usable == f.usable_of()
        }),
        r.in_flight@ == a@.in_flight,
        r.realm@ == a@.kerberos.realm,
        r.source@ == a@.source,
        r.broker_host@ == (match a@.settings.broker_url() {
            Some(url) => super::host_part(url),
            None => Seq::empty(),
        }),
        r.help_url@ == text::or_nothing(a@.help_url),
        r.idp_name@ == a@.idp_name,
        r.principal@ == a@.principal,
        r.ticket == clock_of(a@, now),
        earliest(
            seq![a@.refresh_at, a@.startup_retry_at, a@.probe_at],
            r.next_attempt_at_earliest,
        ),
        r.message@ == a@.message,
        r.fault == (a@.fault is Some),
        r.holds_grant == (a@.settings.file.grant is Some),
        r.grant_expiry == grant_expiry_of(a@),
        r.grant_target@ == text::or_nothing(a@.settings.grant_for()),
        r.just_authorized == a@.just_authorized,
{
    let facts = a.facts(w, now);
    let described = describe(&facts);
    let clocks: [Option<i64>; 3] = [a.refresh_at, a.startup_retry_at, a.probe_at];
    assert(clocks@ =~= seq![a@.refresh_at, a@.startup_retry_at, a@.probe_at]);
    Status {
        condition: described.condition,
        blockers: described.blockers,
        actions: described.actions,
        in_flight: copied_actions(&a.in_flight),
        supply: described.supply,
        usable: described.usable,
        realm: a.kerberos.realm.clone(),
        source: a.source.clone(),
        broker_host: match a.settings.broker_url() {
            Some(url) => host_of(url),
            None => String::new(),
        },
        help_url: match &a.help_url {
            Some(url) => url.clone(),
            None => String::new(),
        },
        idp_name: a.idp_name.clone(),
        principal: a.principal.clone(),
        ticket: a.ticket_clock(now),
        next_attempt_at_earliest: soonest(clocks),
        message: a.message.clone(),
        fault: a.fault.is_some(),
        holds_grant: a.settings.grant().is_some(),
        grant_expiry: match a.settings.grant() {
            Some(g) => Some(g.sign_in_required_by),
            None => None,
        },
        grant_target: or_empty(a.settings.grant_for()),
        just_authorized: a.just_authorized,
    }
}

// ------------------------------------------------------------------------ laws

/// A ticket that has run out has nothing left and is still a ticket: only a
/// machine that holds none has no clock. What is left never exceeds the whole
/// while the ticket is running.
pub proof fn law_a_lapsed_ticket_is_still_a_ticket(m: AgentModel, now: i64)
    requires
        schedule::clock(now),
        m.sound(),
    ensures
        clock_of(m, now) is None <==> m.end == 0,
        clock_of(m, now) matches Some(c) ==> c.remaining >= 0 && c.lifetime >= 1 && (c.remaining
            == 0 <==> m.end <= now) && (m.start <= now ==> c.remaining <= c.lifetime),
{
}

/// Every fact on a surface is one thing that is so: each is read from its own place, and
/// from no other.
pub proof fn law_every_fact_is_read_from_its_place(m: AgentModel, w: Surroundings, now: i64)
    ensures
        ({
            let f = facts_of(m, w, now);
            &&& f.broker <==> m.settings.policy.broker_url is Some || m.settings.file.broker_url
                is Some || m.settings.discovered is Some
            &&& f.realm_known <==> m.kerberos.realm != Seq::<char>::empty()
            &&& f.enrolled <==> m.enroll_state == crate::enroll::StateModel::Enrolled
            &&& f.ticket <==> (m.phase == super::Phase::Connected || m.phase
                == super::Phase::SigningIn) && now < m.end && m.principal != Seq::<char>::empty()
            &&& f.expected <==> m.scope() is Some && m.settings.file.expected_working_as
                == m.scope()
            &&& f.delegated <==> m.settings.policy.grant_for is Some || m.settings.file.grant_for
                is Some
            &&& f.grant_valid <==> m.settings.file.grant is Some && now
                < m.settings.file.grant->0.sign_in_required_by
            &&& f.refresh_token == w.refresh_token
            &&& f.cloud_session == m.settings.file.browser_session
            &&& f.windows_sign_in == m.settings.windows_sign_in()
            &&& f.grants_enabled <==> m.device_grant.days != 0 && m.device_grant.audience.len() > 0
                && w.device_keys
            &&& f.ntlm_recovery == m.settings.ntlm_fallback_recovery()
            &&& f.ntlm_confirmed <==> m.fallback == NtlmFallback::Confirmed
            &&& f.fault == m.fault
            &&& f.flaky_elapsed <==> m.first_failure_at is Some && m.first_failure_at->0 + 15 * 60
                < now
            &&& f.enrollment_platform == m.settings.windows
            &&& f.browser_leg == w.browser_leg
        }),
{
    assert(m.kerberos.realm.len() == 0 ==> m.kerberos.realm =~= Seq::empty());
    assert(m.principal.len() == 0 ==> m.principal =~= Seq::empty());
}

/// A ticket is late once four fifths of its life are behind it, and stays so; one that this
/// machine does not hold is never late.
pub proof fn law_a_ticket_is_late_after_four_fifths(start: i64, end: i64, now: i64, later: i64)
    ensures
        end == 0 ==> !is_late(start, end, now),
        end != 0 && start < end ==> (is_late(start, end, now) <==> 5 * (end - now) <= end - start),
        now <= later && is_late(start, end, now) ==> is_late(start, end, later),
        end != 0 && start < end && now >= end ==> is_late(start, end, now),
{
    if end != 0 && start < end {
        assert(end - start > 1 || end - start == 1);
    }
}

/// The ticket's clock shows its own end, what is left to it, how long it is in all, and
/// whether the KDC would renew it past that.
pub proof fn law_the_clock_shows_the_ticket(m: AgentModel, now: i64)
    requires
        schedule::clock(now),
        m.sound(),
    ensures
        clock_of(m, now) matches Some(c) ==> {
            &&& c.end == m.end
            &&& now <= m.end ==> c.remaining == m.end - now
            &&& now > m.end ==> c.remaining == 0
            &&& m.end > m.start ==> c.lifetime == m.end - m.start
            &&& m.end <= m.start ==> c.lifetime == 1
            &&& c.renewable <==> m.renew_till > m.end
        },
        m.settings.file.grant matches Some(g) ==> grant_expiry_of(m) == Some(g.sign_in_required_by),
        m.settings.file.grant is None ==> grant_expiry_of(m) is None,
{
}

/// The next attempt is the earliest of the clocks that run, and there is none where none
/// does.
pub proof fn law_the_next_attempt_is_the_earliest(
    a: Option<i64>,
    b: Option<i64>,
    c: Option<i64>,
    r: Option<i64>,
)
    requires
        earliest(seq![a, b, c], r),
    ensures
        r is None <==> a is None && b is None && c is None,
        r is Some ==> r == a || r == b || r == c,
        r matches Some(t) ==> (a matches Some(u) ==> t <= u) && (b matches Some(u) ==> t <= u) && (c
            matches Some(u) ==> t <= u),
{
    let s = seq![a, b, c];
    assert(s[0] == a && s[1] == b && s[2] == c);
}

} // verus!
