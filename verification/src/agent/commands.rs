//! What the host may ask for: the verbs behind a menu item or a button, and the
//! settings sheet's read and write.
//!
//! Each one returns at once. Anything that blocks is only *started* by what comes
//! back, so a command's whole job is to decide whether the ask is legal now,
//! change what the user sees, and hand the rest over.

use super::jobs::{create_grant, give_up_grant, start_worker, RevokeJob};
use super::schedule;
use super::schedule::STARTUP_RETRIES;
use super::signin::Run;
use super::{Agent, AgentModel, Phase, Trigger};
use crate::config;
use crate::config::Settings;
use crate::describe::{Action, Fault};
use crate::discovery;
use crate::discovery::{Defaults, DeviceGrantConfig, KerberosConfig};
use crate::enroll;
use crate::sentence;
use crate::sentence::{say, Phrase};
use crate::text;
use crate::text::{or_empty, owned, same};
use vstd::prelude::*;
use vstd::string::*;

verus! {

/// Whether a sign-in the user asks for is an authorization instead: on a machine
/// with a pinned target that has nothing to re-inject with. The sign-in it runs
/// proves the person at the keyboard, not the account this machine works as.
pub open spec fn authorizes_instead(m: AgentModel) -> bool {
    m.settings.grant_for() is Some && m.settings.file.grant is None
}

/// Their click supersedes anything autostart still had queued.
pub open spec fn clicked(m: AgentModel) -> AgentModel {
    AgentModel { startup_retry_at: None, ..m }
}

/// Start a sign-in the user asked for. No-op while another worker is running.
pub fn sign_in(a: &mut Agent, refresh_token: Option<String>) -> (r: Option<Run>)
    ensures
        r is Some <==> old(a)@.can_start(),
        match r {
            None => final(a)@ == clicked(old(a)@),
            Some(run) => if authorizes_instead(old(a)@) {
                run@ == old(a)@.authorize_run() && final(a)@ == clicked(old(a)@).occupied(
                    Action::CreateGrant,
                )
            } else {
                run@ == old(a)@.sign_in_run(Trigger::User, text::opt_text(refresh_token))
                    && final(a)@ == clicked(old(a)@).at_work(Trigger::User)
            },
        },
        old(a)@.sound() ==> final(a)@.sound(),
{
    a.startup_retry_at = None;
    if a.settings.grant_for().is_some() && a.settings.grant().is_none() {
        create_grant(a)
    } else {
        start_worker(a, Trigger::User, refresh_token)
    }
}

/// Re-inject now, silently if a credential is available.
pub fn renew_now(a: &mut Agent, refresh_token: Option<String>) -> (r: Option<Run>)
    ensures
        r is Some <==> old(a)@.can_start(),
        match r {
            Some(run) => final(a)@ == old(a)@.at_work(Trigger::Renewal) && run@
                == old(a)@.sign_in_run(Trigger::Renewal, text::opt_text(refresh_token)),
            None => final(a)@ == old(a)@,
        },
        old(a)@.sound() ==> final(a)@.sound(),
{
    start_worker(a, Trigger::Renewal, refresh_token)
}

/// Whether signing in at logon could do anything but annoy: a broker, a way to be
/// silent, a realm the OS knows, no ticket adopted already, and autostart on by
/// either route.
pub open spec fn worth_autostarting(m: AgentModel, autostart: bool) -> bool {
    &&& m.phase is SignedOut
    &&& m.settings.broker_url() is Some
    &&& m.settings.windows_sign_in() || m.settings.file.grant is Some
    &&& m.enroll_state is Enrolled
    &&& autostart
}

/// With the retries of a logon armed.
pub open spec fn at_logon(m: AgentModel) -> AgentModel {
    AgentModel { startup_retries: STARTUP_RETRIES, ..m }
}

/// Sign in at logon, without being asked and without showing anything. `autostart`
/// is whether this machine starts the agent at login at all, by either route --
/// [`config::autostart_active`].
pub fn autostart_sign_in(a: &mut Agent, autostart: bool, refresh_token: Option<String>) -> (r: Option<
    Run,
>)
    ensures
        r is Some <==> worth_autostarting(old(a)@, autostart) && !old(a)@.busy,
        match r {
            Some(run) => final(a)@ == at_logon(old(a)@).at_work(Trigger::Startup) && run@
                == old(a)@.sign_in_run(Trigger::Startup, text::opt_text(refresh_token)),
            None => final(a)@ == (if worth_autostarting(old(a)@, autostart) {
                at_logon(old(a)@)
            } else {
                old(a)@
            }),
        },
        old(a)@.sound() ==> final(a)@.sound(),
{
    let go = matches!(a.phase, Phase::SignedOut) && a.settings.broker_url().is_some() && (
    a.settings.windows_sign_in() || a.settings.grant().is_some()) && !a.enroll_state.needs_action()
        && autostart;
    if !go {
        return None;
    }
    a.startup_retries = STARTUP_RETRIES;
    start_worker(a, Trigger::Startup, refresh_token)
}

/// Signed off: the session forgotten, nothing expected any more, and a note -- or
/// the failure, when the tickets are still in the cache, because the icon must not
/// fade over a sign-off that did not happen.
pub open spec fn signed_off(m: AgentModel, purged: bool, now: i64) -> AgentModel {
    let a = m.reset().expecting(false);
    if purged {
        a.noting(sentence::plain(Phrase::SignedOffNote))
    } else {
        a.recording(Some(Fault::Other), sentence::plain(Phrase::ErrSignOffFailed), now)
    }
}

/// The realm whose tickets signing off purges. Without one there is nothing to purge,
/// and nothing that could fail.
pub fn realm_to_purge(a: &Agent) -> (r: Option<String>)
    ensures
        text::opt_text(r) == (if a@.kerberos.realm.len() == 0 {
            None
        } else {
            Some(a@.kerberos.realm)
        }),
{
    if a.kerberos.realm.as_str().is_empty() {
        None
    } else {
        Some(a.kerberos.realm.clone())
    }
}

/// Sign off, once the realm's tickets were purged from the cache, or could not be.
/// The cloud session is untouched, and the device grant deliberately survives:
/// signing out is the person at the keyboard leaving, while the grant is the
/// account this machine works *as*. Returns whether the settings are to be saved.
pub fn drop_ticket(a: &mut Agent, purged: bool, now: i64) -> (save: bool)
    requires
        schedule::clock(now),
        old(a)@.sound(),
    ensures
        final(a)@ == signed_off(old(a)@, purged, now),
        save == (old(a)@.settings.file.expected_working_as is Some),
        final(a)@.sound(),
{
    a.reset_session();
    let save = a.expect(false);
    if purged {
        a.note(say(Phrase::SignedOffNote));
    } else {
        a.record(Some(Fault::Other), say(Phrase::ErrSignOffFailed), now);
    }
    save
}

/// Sign out of the cloud: end the browser session this agent put at the authority.
/// The Kerberos tickets stay. Returns the broker whose authority is to be asked,
/// where there is such a session; the refresh token in memory is the caller's to
/// forget either way.
pub fn sign_out_idp(a: &mut Agent) -> (r: Option<String>)
    ensures
        text::opt_text(r) == (if old(a)@.settings.file.browser_session {
            old(a)@.settings.broker_url()
        } else {
            None
        }),
        final(a)@ == (if r is Some {
            old(a)@.running(Action::SignOutIdp)
        } else {
            old(a)@
        }),
        old(a)@.sound() ==> final(a)@.sound(),
{
    let broker = if a.settings.browser_session() {
        owned(a.settings.broker_url())
    } else {
        None
    };
    if broker.is_some() {
        a.started(Action::SignOutIdp);
    }
    broker
}

/// Give up the grant this machine holds, at the broker that issued it.
pub fn give_up_grant_now(a: &mut Agent) -> (r: Option<RevokeJob>)
    ensures
        match r {
            Some(job) => old(a)@.settings.file.grant == Some(job.grant@) && text::opt_text(
                job.broker,
            ) == old(a)@.settings.broker_url() && final(a)@ == old(a)@.giving_up(),
            None => old(a)@.settings.file.grant is None && final(a)@ == old(a)@,
        },
        old(a)@.sound() ==> final(a)@.sound(),
{
    let broker = owned(a.settings.broker_url());
    give_up_grant(a, broker)
}

/// The status surface has gone away. The only thing that outlives a repaint is the
/// promotion a fresh grant earns, and closing the surface is what spends it.
pub fn status_closed(a: &mut Agent)
    ensures
        final(a)@ == (AgentModel { just_authorized: false, ..old(a)@ }),
        old(a)@.sound() ==> final(a)@.sound(),
{
    a.just_authorized = false;
}

/// What the Settings window shows.
pub struct SettingsView {
    pub broker_url: String,
    pub broker_locked: bool,
    pub autostart: bool,
    /// True when a machine-wide entry is what turned it on, or policy decides. The
    /// checkbox then does not move: a per-user setting cannot countermand either.
    pub autostart_locked: bool,
    pub windows_sign_in: bool,
    /// True when policy supplies it, so the checkbox reads the managed value and does
    /// not move.
    pub windows_sign_in_locked: bool,
    /// The realm the Advanced actions target; empty until it has been discovered.
    pub realm: String,
    /// How many days a device grant would last here. 0 means the deployment has
    /// the feature off, and the button does not exist at all.
    pub grant_days: u32,
    /// The deadline on the grant this machine already holds, or 0 for none. Its
    /// presence is what turns the action into "Extend".
    pub grant_deadline: i64,
    /// Whom this machine authorizes itself for; empty is "whoever signs in".
    pub grant_for: String,
    /// True when that came from machine policy, so it is shown rather than offered
    /// for editing.
    pub grant_for_locked: bool,
}

/// What the Settings window shows. `autostart_enabled` and `machine_wide` are read
/// from the operating system each time, because the user can also change it there.
pub fn settings_view(a: &Agent, autostart_enabled: bool, machine_wide: bool) -> (r: SettingsView)
    ensures
        r.broker_url@ == text::or_nothing(a@.settings.broker_url()),
        r.broker_locked == (a@.settings.policy.broker_url is Some),
        r.autostart == (autostart_enabled || machine_wide),
        r.autostart_locked == a@.settings.autostart_locked(machine_wide),
        r.windows_sign_in == a@.settings.windows_sign_in(),
        r.windows_sign_in_locked == (a@.settings.policy.windows_sign_in is Some),
        r.realm@ == a@.kerberos.realm,
        r.grant_days == (if a@.device_grant.is_enabled() {
            a@.device_grant.days
        } else {
            0
        }),
        r.grant_deadline == (match a@.settings.file.grant {
            Some(g) => g.sign_in_required_by,
            None => 0,
        }),
        r.grant_for@ == text::or_nothing(a@.settings.grant_for()),
        r.grant_for_locked == (a@.settings.policy.grant_for is Some),
{
    SettingsView {
        broker_url: or_empty(a.settings.broker_url()),
        broker_locked: a.settings.broker_url_locked(),
        autostart: config::autostart_active(autostart_enabled, machine_wide),
        autostart_locked: a.settings.autostart_locked(machine_wide),
        windows_sign_in: a.settings.windows_sign_in(),
        windows_sign_in_locked: a.settings.windows_sign_in_locked(),
        realm: a.kerberos.realm.clone(),
        grant_days: if a.device_grant.enabled() {
            a.device_grant.days
        } else {
            0
        },
        grant_deadline: match a.settings.grant() {
            Some(g) => g.sign_in_required_by,
            None => 0,
        },
        grant_for: or_empty(a.settings.grant_for()),
        grant_for_locked: a.settings.grant_for_locked(),
    }
}

/// What applying the Settings window asks of its caller, besides saving the
/// settings.
pub struct Applied {
    /// The per-user login entry to write, unless a machine-wide one or policy decides.
    pub autostart: Option<bool>,
    /// The agent now asks another broker: the session of the old one ends.
    pub retargeted: bool,
    /// A grant of the old broker to give up.
    pub give_up: Option<RevokeJob>,
    /// The old realm, whose tickets are to be purged; the refresh token in memory
    /// goes with them. Empty where there is none.
    pub purge: String,
}

/// The settings with what the window says in them. Only what was moved is written, and
/// nothing that policy decides: a control that still reads what it was shown is not a
/// choice, and recording it as one would stop a machine from following its deployment's
/// defaults.
///
/// No broker is "the user did not touch the field", which is not the same as an empty
/// one: what the field shows may be what DNS volunteered, and writing that back would
/// pin the machine to it.
#[verifier::opaque]
pub open spec fn written(
    m: AgentModel,
    broker_url: Option<Seq<char>>,
    autostart: bool,
    enabled: bool,
    machine_wide: bool,
    windows_sign_in: bool,
    grant_for: Seq<char>,
) -> AgentModel {
    AgentModel {
        settings: with_boxes(
            with_fields(m.settings, broker_url, grant_for),
            autostart,
            enabled,
            machine_wide,
            windows_sign_in,
        ),
        ..m
    }
}

/// The settings with what the two text fields say.
pub open spec fn with_fields(
    s: config::SettingsModel,
    broker_url: Option<Seq<char>>,
    grant_for: Seq<char>,
) -> config::SettingsModel {
    let s = match broker_url {
        Some(url) if s.policy.broker_url is None => s.with_broker(url),
        _ => s,
    };
    if s.policy.grant_for is None && grant_for != text::or_nothing(s.grant_for()) {
        s.with_target(grant_for)
    } else {
        s
    }
}

/// The settings with what the two checkboxes say.
pub open spec fn with_boxes(
    s: config::SettingsModel,
    autostart: bool,
    enabled: bool,
    machine_wide: bool,
    windows_sign_in: bool,
) -> config::SettingsModel {
    let s = if s.policy.windows_sign_in is None && windows_sign_in != s.windows_sign_in() {
        s.with_windows_sign_in(windows_sign_in)
    } else {
        s
    };
    if !s.autostart_locked(machine_wide) && autostart != enabled {
        s.with_autostart(autostart)
    } else {
        s
    }
}

/// The agent that asks another broker: nothing that belonged to the old one
/// survives, and the new address is tried at once, silently.
#[verifier::opaque]
pub open spec fn retargeted(m: AgentModel, now: i64) -> AgentModel {
    let a = if m.settings.file.grant is Some {
        m.giving_up()
    } else {
        m
    };
    AgentModel {
        settings: config::SettingsModel {
            defaults: discovery::no_defaults(),
            ..a.settings.with_session(false).caching(discovery::no_realm())
        },
        kerberos: discovery::no_realm(),
        enroll_state: enroll::StateModel::NotEnrolled,
        device_grant: discovery::no_grants(),
        help_url: None,
        startup_retry_at: Some(now),
        ..a.reset()
    }
}

/// The broker as text, empty where there is none.
pub open spec fn broker_text(m: AgentModel) -> Seq<char> {
    text::or_nothing(m.settings.broker_url())
}

fn retarget(a: &mut Agent, before: String, now: i64) -> (r: Option<RevokeJob>)
    requires
        schedule::clock(now),
        old(a)@.sound(),
    ensures
        final(a)@ == retargeted(old(a)@, now),
        match r {
            Some(job) => old(a)@.settings.file.grant == Some(job.grant@) && text::opt_text(
                job.broker,
            ) == (if before@.len() > 0 {
                Some(before@)
            } else {
                None
            }),
            None => old(a)@.settings.file.grant is None,
        },
        final(a)@.sound(),
{
    proof {
        reveal(retargeted);
    }
    let issuer = if before.as_str().is_empty() {
        None
    } else {
        Some(before)
    };
    let job = give_up_grant(a, issuer);
    a.settings.set_browser_session(false);
    a.reset_session();
    a.kerberos = KerberosConfig::default();
    a.enroll_state = enroll::State::NotEnrolled;
    a.device_grant = DeviceGrantConfig::default();
    a.help_url = None;
    // The cached realm goes too, not just the in-memory one: it is the *old*
    // broker's answer.
    a.settings.set_cache(&KerberosConfig::default());
    a.settings.set_defaults(Defaults::default());
    a.startup_retry_at = Some(now);
    job
}

fn write_fields(s: &mut Settings, broker_url: Option<&str>, grant_for: &str)
    ensures
        final(s)@ == with_fields(old(s)@, text::opt_str(broker_url), grant_for@),
{
    if let Some(url) = broker_url {
        if !s.broker_url_locked() {
            s.set_broker_url(url);
        }
    }
    let shown = or_empty(s.grant_for());
    if !s.grant_for_locked() && !same(grant_for, shown.as_str()) {
        s.set_grant_for(grant_for);
    }
}

fn write_boxes(
    s: &mut Settings,
    autostart: bool,
    enabled: bool,
    machine_wide: bool,
    windows_sign_in: bool,
)
    ensures
        final(s)@ == with_boxes(old(s)@, autostart, enabled, machine_wide, windows_sign_in),
{
    if !s.windows_sign_in_locked() && windows_sign_in != s.windows_sign_in() {
        s.set_windows_sign_in(windows_sign_in);
    }
    if !s.autostart_locked(machine_wide) && autostart != enabled {
        s.set_autostart_choice(autostart);
    }
}

fn write_settings(
    a: &mut Agent,
    broker_url: Option<&str>,
    autostart: bool,
    enabled: bool,
    machine_wide: bool,
    windows_sign_in: bool,
    grant_for: &str,
)
    ensures
        final(a)@ == written(
            old(a)@,
            text::opt_str(broker_url),
            autostart,
            enabled,
            machine_wide,
            windows_sign_in,
            grant_for@,
        ),
        old(a)@.sound() ==> final(a)@.sound(),
{
    proof {
        reveal(written);
    }
    write_fields(&mut a.settings, broker_url, grant_for);
    write_boxes(&mut a.settings, autostart, enabled, machine_wide, windows_sign_in);
}

/// Writing the window moves neither the realm nor the grant, and no policy.
proof fn writing_keeps(
    m: AgentModel,
    broker_url: Option<Seq<char>>,
    autostart: bool,
    enabled: bool,
    machine_wide: bool,
    windows_sign_in: bool,
    grant_for: Seq<char>,
)
    ensures
        ({
            let w = written(
                m,
                broker_url,
                autostart,
                enabled,
                machine_wide,
                windows_sign_in,
                grant_for,
            );
            &&& w.kerberos == m.kerberos
            &&& w.settings.file.grant == m.settings.file.grant
            &&& w.settings.policy == m.settings.policy
        }),
{
    reveal(written);
}

/// What applying the Settings window comes to.
pub open spec fn is_applied(
    m: AgentModel,
    next: AgentModel,
    r: Applied,
    broker_url: Option<Seq<char>>,
    autostart: bool,
    enabled: bool,
    machine_wide: bool,
    windows_sign_in: bool,
    grant_for: Seq<char>,
    now: i64,
) -> bool {
    let w = written(m, broker_url, autostart, enabled, machine_wide, windows_sign_in, grant_for);
    &&& r.retargeted == (broker_text(w) != broker_text(m))
    &&& next == (if r.retargeted {
        retargeted(w, now)
    } else {
        w
    })
    &&& r.autostart == (if m.settings.autostart_locked(machine_wide) {
        None
    } else {
        Some(autostart)
    })
    &&& r.purge@ == (if r.retargeted {
        m.kerberos.realm
    } else {
        Seq::empty()
    })
    &&& match r.give_up {
        Some(job) => r.retargeted && m.settings.file.grant == Some(job.grant@) && text::opt_text(
            job.broker,
        ) == (if broker_text(m).len() > 0 {
            Some(broker_text(m))
        } else {
            None
        }),
        None => !r.retargeted || m.settings.file.grant is None,
    }
}

/// Apply the Settings window. A changed broker URL invalidates everything the old
/// broker said. A changed pin invalidates nothing: it decides who the *next*
/// authorization names.
///
/// `enabled` and `machine_wide` are what the operating system says of the two login
/// entries, as for [`settings_view`]: the startup box was moved where it disagrees with
/// the per-user one, and moving it is the choice this machine then keeps.
pub fn apply_settings(
    a: &mut Agent,
    broker_url: Option<&str>,
    autostart: bool,
    enabled: bool,
    machine_wide: bool,
    windows_sign_in: bool,
    grant_for: &str,
    now: i64,
) -> (r: Applied)
    requires
        schedule::clock(now),
        old(a)@.sound(),
    ensures
        is_applied(
            old(a)@,
            final(a)@,
            r,
            text::opt_str(broker_url),
            autostart,
            enabled,
            machine_wide,
            windows_sign_in,
            grant_for@,
            now,
        ),
        final(a)@.sound(),
{
    let before = or_empty(a.settings.broker_url());
    write_settings(
        a,
        broker_url,
        autostart,
        enabled,
        machine_wide,
        windows_sign_in,
        grant_for,
    );
    proof {
        writing_keeps(
            old(a)@,
            text::opt_str(broker_url),
            autostart,
            enabled,
            machine_wide,
            windows_sign_in,
            grant_for@,
        );
    }
    let autostart = if a.settings.autostart_locked(machine_wide) {
        None
    } else {
        Some(autostart)
    };
    let after = or_empty(a.settings.broker_url());
    if same(after.as_str(), before.as_str()) {
        let purge = String::new();
        assert(purge@ =~= Seq::empty());
        return Applied { autostart, retargeted: false, give_up: None, purge };
    }
    let purge = a.kerberos.realm.clone();
    let give_up = retarget(a, before, now);
    Applied { autostart, retargeted: true, give_up, purge }
}

// ------------------------------------------------------------------------ laws

/// Signing off leaves the grant, and everything a grant needs to work again: only
/// giving it up by name gives it up.
pub proof fn law_signing_off_keeps_the_grant(m: AgentModel, purged: bool, now: i64)
    ensures
        signed_off(m, purged, now).settings.file.grant == m.settings.file.grant,
        signed_off(m, purged, now).settings.file.browser_session
            == m.settings.file.browser_session,
        !signed_off(m, purged, now).expected(),
        !signed_off(m, purged, now).live(now),
        signed_off(m, purged, now).refresh_at is None,
        signed_off(m, purged, now).fault is Some <==> !purged,
{
}

/// Retargeting the agent leaves nothing of the old broker behind: no realm, no
/// grant, no preferences of its deployment, no session, no schedule, no browser session
/// to offer ending -- in memory or in the file.
pub proof fn law_retargeting_leaves_nothing_behind(m: AgentModel, now: i64)
    ensures
        ({
            let r = retargeted(m, now);
            &&& r.kerberos == discovery::no_realm()
            &&& r.settings.file.cache == discovery::no_realm()
            &&& r.settings.defaults == discovery::no_defaults()
            &&& r.settings.file.grant is None
            &&& !r.settings.file.browser_session
            &&& r.phase is SignedOut
            &&& r.principal.len() == 0
            &&& r.refresh_at is None
            &&& r.fallback is Clear
            &&& r.fault is None
            &&& !r.expected()
            &&& r.startup_retry_at == Some(now)
        }),
{
    reveal(retargeted);
}

/// Saving the window without touching the broker field keeps a machine that
/// follows DNS following it, and ends no session.
pub proof fn law_an_untouched_field_pins_nothing(
    m: AgentModel,
    autostart: bool,
    enabled: bool,
    machine_wide: bool,
    windows_sign_in: bool,
    grant_for: Seq<char>,
)
    ensures
        ({
            let w = written(
                m,
                None,
                autostart,
                enabled,
                machine_wide,
                windows_sign_in,
                grant_for,
            );
            &&& w.settings.file.broker_url == m.settings.file.broker_url
            &&& broker_text(w) == broker_text(m)
            &&& w.settings.file.grant == m.settings.file.grant
            &&& w.phase == m.phase
        }),
{
    reveal(written);
}

/// Applying the window exactly as it was shown changes nothing: no key is added to the
/// file, no session ends, and the agent that was is the agent that is.
pub proof fn law_the_window_as_shown_changes_nothing(
    m: AgentModel,
    next: AgentModel,
    r: Applied,
    view: SettingsView,
    enabled: bool,
    machine_wide: bool,
    now: i64,
)
    requires
        view.autostart == (enabled || machine_wide),
        view.windows_sign_in == m.settings.windows_sign_in(),
        view.grant_for@ == text::or_nothing(m.settings.grant_for()),
        is_applied(
            m,
            next,
            r,
            None,
            view.autostart,
            enabled,
            machine_wide,
            view.windows_sign_in,
            view.grant_for@,
            now,
        ),
    ensures
        next == m,
        !r.retargeted,
        r.give_up is None,
        r.purge@.len() == 0,
        r.autostart matches Some(on) ==> on == enabled,
{
    reveal(written);
}

/// A startup box that was moved is this machine's own answer, and no deployment default
/// that is discovered later re-decides it.
pub proof fn law_a_moved_box_outlives_every_default(
    m: AgentModel,
    broker_url: Option<Seq<char>>,
    autostart: bool,
    enabled: bool,
    machine_wide: bool,
    windows_sign_in: bool,
    grant_for: Seq<char>,
    defaults: discovery::Defaults,
)
    requires
        !m.settings.autostart_locked(machine_wide),
        autostart != enabled,
    ensures
        ({
            let w = written(
                m,
                broker_url,
                autostart,
                enabled,
                machine_wide,
                windows_sign_in,
                grant_for,
            );
            &&& w.settings.file.autostart == Some(autostart)
            &&& config::SettingsModel { defaults, ..w.settings }.autostart_want() is None
        }),
{
    reveal(written);
}

/// What policy decides, the window does not: neither box writes over it.
pub proof fn law_policy_is_not_written_over(
    m: AgentModel,
    broker_url: Option<Seq<char>>,
    autostart: bool,
    enabled: bool,
    machine_wide: bool,
    windows_sign_in: bool,
    grant_for: Seq<char>,
)
    ensures
        ({
            let w = written(
                m,
                broker_url,
                autostart,
                enabled,
                machine_wide,
                windows_sign_in,
                grant_for,
            );
            &&& m.settings.autostart_locked(machine_wide) ==> w.settings.file.autostart
                == m.settings.file.autostart
            &&& m.settings.policy.windows_sign_in is Some || windows_sign_in
                == m.settings.windows_sign_in() ==> w.settings.file.windows_sign_in
                == m.settings.file.windows_sign_in
            &&& m.settings.policy.windows_sign_in is None && windows_sign_in
                != m.settings.windows_sign_in() ==> w.settings.file.windows_sign_in == Some(
                windows_sign_in,
            )
            &&& m.settings.policy.grant_for is Some ==> w.settings.file.grant_for
                == m.settings.file.grant_for
            &&& m.settings.policy.broker_url is Some ==> w.settings.file.broker_url
                == m.settings.file.broker_url
        }),
{
    reveal(written);
}

/// A click authorizes this machine instead of signing in exactly where an account is pinned
/// and no grant is held for it yet; either way it takes the place of what autostart still
/// had queued, and of nothing else.
pub proof fn law_what_a_click_does(m: AgentModel)
    ensures
        authorizes_instead(m) <==> (m.settings.policy.grant_for is Some
            || m.settings.file.grant_for is Some) && m.settings.file.grant is None,
        clicked(m).startup_retry_at is None,
        clicked(m) == (AgentModel { startup_retry_at: None, ..m }),
{
}

/// A logon signs in by itself only on a machine that is signed out, starts the agent at
/// login, knows a broker and an enrolled realm, and can be silent -- by Windows or by a
/// grant. It has three goes.
pub proof fn law_when_a_logon_signs_in(m: AgentModel, autostart: bool)
    ensures
        worth_autostarting(m, autostart) <==> autostart && m.phase == Phase::SignedOut
            && m.enroll_state == enroll::StateModel::Enrolled && (m.settings.policy.broker_url
            is Some || m.settings.file.broker_url is Some || m.settings.discovered is Some) && (
        m.settings.windows_sign_in() || m.settings.file.grant is Some),
        at_logon(m) == (AgentModel { startup_retries: 3, ..m }),
{
}

/// Signing off says that it did, or that the tickets are still there; whichever, the session
/// is over and nothing of the settings goes but the expectation.
pub proof fn law_what_signing_off_says(m: AgentModel, purged: bool, now: i64)
    ensures
        ({
            let n = signed_off(m, purged, now);
            &&& purged ==> n.message == sentence::plain(Phrase::SignedOffNote) && n.fault is None
            &&& !purged ==> n.message == sentence::plain(Phrase::ErrSignOffFailed) && n.fault
                == Some(Fault::Other)
            &&& n.phase is SignedOut && n.principal.len() == 0 && n.end == 0
            &&& n.refresh_at is None && n.startup_retry_at is None && n.probe_at is None
            &&& n.settings == (config::SettingsModel {
                file: config::FileModel { expected_working_as: None, ..m.settings.file },
                ..m.settings
            })
            &&& n.kerberos == m.kerberos && n.enroll_state == m.enroll_state
            &&& n.device_grant == m.device_grant
        }),
{
}

/// What the window's fields write: a broker or an account that was typed in, where policy
/// leaves the field open; an emptied field is forgotten, and one that still says what was
/// shown is not written.
pub proof fn law_what_the_fields_write(
    m: AgentModel,
    broker_url: Option<Seq<char>>,
    autostart: bool,
    enabled: bool,
    machine_wide: bool,
    windows_sign_in: bool,
    grant_for: Seq<char>,
)
    ensures
        ({
            let w = written(
                m,
                broker_url,
                autostart,
                enabled,
                machine_wide,
                windows_sign_in,
                grant_for,
            ).settings;
            let s = m.settings;
            let shown = if s.file.grant_for is Some {
                s.file.grant_for->0
            } else {
                Seq::empty()
            };
            &&& s.policy.broker_url is None ==> (broker_url matches Some(url) ==> text::trimmed(
                url,
            ).len() == 0 ==> w.file.broker_url is None)
            &&& s.policy.broker_url is None ==> (broker_url matches Some(url) ==> text::trimmed(
                url,
            ).len() > 0 ==> w.file.broker_url == Some(config::https_form(text::trimmed(url))))
            &&& broker_url is None ==> w.file.broker_url == s.file.broker_url
            &&& s.policy.grant_for is None && grant_for == shown ==> w.file.grant_for
                == s.file.grant_for
            &&& s.policy.grant_for is None && grant_for != shown && text::trimmed(grant_for).len()
                == 0 ==> w.file.grant_for is None
            &&& s.policy.grant_for is None && grant_for != shown && text::trimmed(grant_for).len()
                > 0 ==> w.file.grant_for == Some(text::trimmed(grant_for))
            &&& machine_wide || s.policy.autostart is Some || autostart == enabled
                ==> w.file.autostart == s.file.autostart
            &&& !machine_wide && s.policy.autostart is None && autostart != enabled
                ==> w.file.autostart == Some(autostart)
            &&& w.policy == s.policy && w.defaults == s.defaults && w.discovered == s.discovered
                && w.windows == s.windows
            &&& w.file.grant == s.file.grant && w.file.cache == s.file.cache
            &&& w.file.expected_working_as == s.file.expected_working_as
            &&& w.file.browser_session == s.file.browser_session
            &&& w.file.ntlm_fallback_recovery == s.file.ntlm_fallback_recovery
        }),
{
    reveal(written);
}

/// A retargeted agent keeps what was chosen here, and knows nothing that the old broker
/// said: not whether the realm is enrolled, not what it allowed, and not where its help is.
/// The grant is being given up where there was one.
pub proof fn law_what_a_retargeted_agent_keeps(m: AgentModel, now: i64)
    ensures
        ({
            let r = retargeted(m, now);
            &&& r.settings.policy == m.settings.policy
            &&& r.settings.file.broker_url == m.settings.file.broker_url
            &&& r.settings.file.grant_for == m.settings.file.grant_for
            &&& r.settings.file.autostart == m.settings.file.autostart
            &&& r.settings.file.windows_sign_in == m.settings.file.windows_sign_in
            &&& r.settings.file.ntlm_fallback_recovery == m.settings.file.ntlm_fallback_recovery
            &&& r.settings.discovered == m.settings.discovered
            &&& r.enroll_state == enroll::StateModel::NotEnrolled
            &&& r.device_grant.days == 0 && r.device_grant.audience.len() == 0
            &&& r.help_url is None
            &&& r.kerberos.realm.len() == 0 && r.settings.file.cache.realm.len() == 0
            &&& r.end == 0 && r.start == 0 && r.renew_till == 0
            &&& r.settings.defaults.autostart is None && r.settings.defaults.windows_sign_in is None
                && r.settings.defaults.ntlm_fallback_recovery is None
            &&& m.settings.file.grant is Some ==> r.in_flight.contains(Action::GiveUpGrant)
            &&& m.settings.file.grant is None ==> r.in_flight == m.in_flight
            &&& r.busy == m.busy
        }),
{
    reveal(retargeted);
    super::law_what_is_running(m, Action::GiveUpGrant, Action::GiveUpGrant);
    super::jobs::law_giving_up_forgets_the_grant(m);
}

} // verus!
