//! What the agent adopts when it starts: the saved settings, the cached realm, the
//! OS's enrollment state, and any live ticket left in the logon session by a
//! previous run.

use super::schedule;
use super::schedule::{is_the_grants, midpoint_with, random_number, STARTUP_RETRIES};
use super::{Agent, AgentModel, NtlmFallback, Phase};
use crate::config::{Settings, SettingsModel};
use crate::discovery;
use crate::discovery::DeviceGrantConfig;
use crate::enroll;
use crate::sentence;
use crate::sentence::{say, Phrase};
use vstd::prelude::*;
use vstd::string::*;

verus! {

/// A TGT that the ticket cache holds of the realm.
pub struct Held {
    pub principal: String,
    pub start: i64,
    pub end: i64,
    pub renew_till: i64,
}

#[verifier::ext_equal]
pub struct HeldModel {
    pub principal: Seq<char>,
    pub start: i64,
    pub end: i64,
    pub renew_till: i64,
}

impl View for Held {
    type V = HeldModel;

    open spec fn view(&self) -> HeldModel {
        HeldModel {
            principal: self.principal@,
            start: self.start,
            end: self.end,
            renew_till: self.renew_till,
        }
    }
}

/// The TGT behind an optional one.
pub open spec fn held(found: Option<Held>) -> Option<HeldModel> {
    match found {
        Some(t) => Some(t@),
        None => None,
    }
}

/// An agent that has adopted nothing but its settings.
pub open spec fn fresh(settings: SettingsModel, enroll_state: enroll::StateModel) -> AgentModel {
    AgentModel {
        settings,
        kerberos: settings.file.cache,
        enroll_state,
        phase: Phase::SignedOut,
        principal: Seq::empty(),
        start: 0,
        end: 0,
        renew_till: 0,
        refresh_at: None,
        message: sentence::plain(Phrase::Silence),
        fault: None,
        first_failure_at: None,
        probe_at: None,
        probe_backoff: 0,
        refresh_backoff: 0,
        in_flight: Seq::empty(),
        just_authorized: false,
        granted_exchange_pending: false,
        silent_failed: false,
        startup_retry_at: None,
        startup_retries: 0,
        startup_backoff: 0,
        escalated: false,
        device_grant: discovery::no_grants(),
        help_url: None,
        idp_name: Seq::empty(),
        source: Seq::empty(),
        fallback: NtlmFallback::Clear,
        fallback_check_at: 0,
        grant_notified_at: None,
        busy: false,
    }
}

impl Agent {
    /// An agent with these settings. The OS's answer to whether the realm they
    /// cached is enrolled comes with them.
    pub fn new(settings: Settings, enroll_state: enroll::State) -> (r: Self)
        ensures
            r@ == fresh(settings@, enroll_state@),
            r@.sound(),
    {
        let kerberos = settings.cache().to_kerberos();
        let r = Agent {
            settings,
            kerberos,
            enroll_state,
            phase: Phase::SignedOut,
            principal: String::new(),
            start: 0,
            end: 0,
            renew_till: 0,
            refresh_at: None,
            message: say(Phrase::Silence),
            fault: None,
            first_failure_at: None,
            probe_at: None,
            probe_backoff: 0,
            refresh_backoff: 0,
            in_flight: Vec::new(),
            just_authorized: false,
            granted_exchange_pending: false,
            silent_failed: false,
            startup_retry_at: None,
            startup_retries: 0,
            startup_backoff: 0,
            escalated: false,
            device_grant: DeviceGrantConfig::default(),
            help_url: None,
            idp_name: String::new(),
            source: String::new(),
            fallback: NtlmFallback::Clear,
            fallback_check_at: 0,
            grant_notified_at: None,
            busy: false,
        };
        assert(r@ =~= fresh(settings@, enroll_state@));
        r
    }
}

/// What becomes of a ticket found at startup.
#[derive(Clone, Copy, PartialEq, Eq, Debug, Structural)]
pub enum Adopted {
    /// There was none worth speaking of.
    Nothing,
    /// It is this machine's own, and the agent reports the session it is.
    Session,
    /// It was left by somebody else's sign-in: a sign-in worker is to be started,
    /// with [`super::Trigger::Startup`], rather than that person's session kept.
    Foreign,
}

/// What becomes of a ticket found at startup: it counts only for a known realm and
/// while it lives, and it is adopted only where it is this machine's own.
pub open spec fn verdict(m: AgentModel, found: Option<HeldModel>, now: i64) -> Adopted {
    match found {
        Some(t) if m.kerberos.realm.len() > 0 && t.end > now => if schedule::grants_own(
            m.settings.file.grant,
            m.settings.grant_for() is Some,
            t.principal,
        ) {
            Adopted::Session
        } else {
            Adopted::Foreign
        },
        _ => Adopted::Nothing,
    }
}

/// The agent that has looked at it.
pub open spec fn adopted(
    m: AgentModel,
    found: Option<HeldModel>,
    now: i64,
    random: Option<u64>,
) -> AgentModel {
    match verdict(m, found, now) {
        Adopted::Nothing => m,
        Adopted::Foreign => AgentModel { startup_retries: STARTUP_RETRIES, ..m },
        Adopted::Session => {
            let t = found->0;
            let from = if t.start > now {
                t.start
            } else {
                now
            };
            AgentModel {
                principal: t.principal,
                start: t.start,
                end: t.end,
                renew_till: t.renew_till,
                phase: Phase::Connected,
                refresh_at: Some(
                    schedule::midpoint_of(from as int, t.end as int, random) as i64,
                ),
                ..m
            }.expecting(true)
        },
    }
}

/// A ticket whose times the agent can compute with.
pub open spec fn held_timely(found: Option<HeldModel>) -> bool {
    found matches Some(t) ==> schedule::moment(t.start) && schedule::moment(t.end)
        && schedule::moment(t.renew_till)
}

/// Look at the ticket found at startup, for a given random number.
pub fn adopt_with(a: &mut Agent, found: Option<Held>, now: i64, random: Option<u64>) -> (r: (Adopted, bool))
    requires
        schedule::clock(now),
        old(a)@.sound(),
        held_timely(held(found)),
    ensures
        r.0 == verdict(old(a)@, held(found), now),
        final(a)@ == adopted(old(a)@, held(found), now, random),
        r.1 == (final(a)@.settings.file != old(a)@.settings.file),
        final(a)@.sound(),
{
    let t = match found {
        Some(t) => t,
        None => {
            return (Adopted::Nothing, false);
        },
    };
    if a.kerberos.realm.as_str().is_empty() || t.end <= now {
        return (Adopted::Nothing, false);
    }
    let pinned = a.settings.grant_for().is_some();
    if is_the_grants(a.settings.grant(), pinned, t.principal.as_str()) {
        let from: i64 = if t.start > now {
            t.start
        } else {
            now
        };
        let mid: i64 = midpoint_with(from, t.end, random);
        a.principal = t.principal;
        a.start = t.start;
        a.end = t.end;
        a.renew_till = t.renew_till;
        a.phase = Phase::Connected;
        a.refresh_at = Some(mid);
        // Adoption sets the expectation the same way a landed exchange does: this
        // is how a machine that has been restarted knows a lapsed ticket later is a
        // fault rather than a fresh install.
        let save = a.expect(true);
        (Adopted::Session, save)
    } else {
        a.startup_retries = STARTUP_RETRIES;
        (Adopted::Foreign, false)
    }
}

/// Look at the ticket found at startup. A ticket can outlive the agent: the agent
/// is per-user and restartable, the ticket cache is per-logon-session. Returns what
/// became of it, and whether the settings are to be saved.
pub fn adopt(a: &mut Agent, found: Option<Held>, now: i64) -> (r: (Adopted, bool))
    requires
        schedule::clock(now),
        old(a)@.sound(),
        held_timely(held(found)),
    ensures
        r.0 == verdict(old(a)@, held(found), now),
        exists|random: Option<u64>|
            final(a)@ == #[trigger] adopted(old(a)@, held(found), now, random),
        r.1 == (final(a)@.settings.file != old(a)@.settings.file),
        final(a)@.sound(),
{
    let random = random_number();
    adopt_with(a, found, now, random)
}

/// A restarted agent never reports somebody else's session as this machine's: what
/// it adopts is the grant's own ticket, still alive, and it expects to go on
/// working.
pub proof fn law_only_the_machines_own_session_is_adopted(
    m: AgentModel,
    found: Option<HeldModel>,
    now: i64,
    random: Option<u64>,
)
    requires
        !(m.phase is Connected),
        adopted(m, found, now, random).phase is Connected,
    ensures
        schedule::grants_own(
            m.settings.file.grant,
            m.settings.grant_for() is Some,
            adopted(m, found, now, random).principal,
        ),
        adopted(m, found, now, random).end > now,
        adopted(m, found, now, random).refresh_at is Some,
        adopted(m, found, now, random).expected(),
{
}

/// A ticket found at startup is a session of this machine's where it still runs, in a realm
/// that is known, for the principal that the grant works as -- or for anybody, where there
/// is no grant, or one that has worked as nobody yet and no account is pinned. Another's is
/// told apart from none.
pub proof fn law_what_a_found_ticket_is(m: AgentModel, t: HeldModel, now: i64)
    ensures
        verdict(m, None, now) == Adopted::Nothing,
        t.end <= now || m.kerberos.realm.len() == 0 ==> verdict(m, Some(t), now)
            == Adopted::Nothing,
        t.end > now && m.kerberos.realm.len() > 0 && m.settings.file.grant is None ==> verdict(
            m,
            Some(t),
            now,
        ) == Adopted::Session,
        t.end > now && m.kerberos.realm.len() > 0 ==> (m.settings.file.grant matches Some(g)
            ==> verdict(m, Some(t), now) == (match g.principal {
            Some(p) => if p == t.principal {
                Adopted::Session
            } else {
                Adopted::Foreign
            },
            None => if m.settings.policy.grant_for is Some || m.settings.file.grant_for is Some {
                Adopted::Foreign
            } else {
                Adopted::Session
            },
        })),
{
}

/// A session that is adopted is the found ticket's: its principal and its times, connected,
/// renewed halfway to its end, and expected from here on. Another's ticket only arms the
/// three retries of a logon, and no ticket changes nothing.
pub proof fn law_what_is_adopted(m: AgentModel, t: HeldModel, now: i64, random: Option<u64>)
    ensures
        ({
            let n = adopted(m, Some(t), now, random);
            &&& verdict(m, Some(t), now) == Adopted::Session ==> {
                &&& n.phase is Connected
                &&& n.principal == t.principal
                &&& n.start == t.start
                &&& n.end == t.end
                &&& n.renew_till == t.renew_till
                &&& n.settings.file.expected_working_as == m.scope()
                &&& t.start <= now ==> n.refresh_at == Some(
                    schedule::midpoint_of(now as int, t.end as int, random) as i64,
                )
                &&& t.start > now ==> n.refresh_at == Some(
                    schedule::midpoint_of(t.start as int, t.end as int, random) as i64,
                )
                &&& n.startup_retries == m.startup_retries
                &&& n.settings.file.grant == m.settings.file.grant
                &&& n.kerberos == m.kerberos && n.busy == m.busy
            }
            &&& verdict(m, Some(t), now) == Adopted::Foreign ==> n == (AgentModel {
                startup_retries: 3,
                ..m
            })
            &&& verdict(m, Some(t), now) == Adopted::Nothing ==> n == m
            &&& adopted(m, None, now, random) == m
        }),
{
}

/// A fresh agent knows its settings, the realm they remember and what the OS said of it, and
/// nothing else.
pub proof fn law_a_fresh_agent_knows_its_settings(s: SettingsModel, e: enroll::StateModel)
    ensures
        ({
            let m = fresh(s, e);
            &&& m.settings == s && m.kerberos == s.file.cache && m.enroll_state == e
            &&& m.phase is SignedOut && m.principal.len() == 0
            &&& m.start == 0 && m.end == 0 && m.renew_till == 0
            &&& m.refresh_at is None && m.startup_retry_at is None && m.probe_at is None
            &&& m.fault is None && m.first_failure_at is None && m.message.phrase is Silence
            &&& m.in_flight.len() == 0 && !m.busy
            &&& !m.just_authorized && !m.granted_exchange_pending
            &&& !m.silent_failed && !m.escalated
            &&& m.startup_retries == 0 && m.startup_backoff == 0 && m.refresh_backoff == 0
                && m.probe_backoff == 0
            &&& m.fallback is Clear && m.fallback_check_at == 0 && m.grant_notified_at is None
            &&& m.help_url is None && m.idp_name.len() == 0 && m.source.len() == 0
            &&& m.device_grant.days == 0
        }),
{
}

/// What contracts speak of is what the fields hold, each under its own name.
pub proof fn law_every_field_is_seen_under_its_name(h: Held)
    ensures
        h@.principal == h.principal@,
        h@.start == h.start,
        h@.end == h.end,
        h@.renew_till == h.renew_till,
{
}

} // verus!
