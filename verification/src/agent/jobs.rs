//! What the agent hands to a worker, and what it remembers of having done so.
//!
//! Everything a worker needs is read here, on the UI thread, and carried in: a
//! worker never touches agent state.

use super::signin::{Run, RunModel};
use super::worker::Flags;
use super::{Agent, AgentModel, Phase, Trigger};
use crate::config::{copied_grant, Grant};
use crate::describe::Action;
use crate::sentence;
use crate::sentence::{say, Phrase};
use crate::text;
use crate::text::owned;
use vstd::prelude::*;
use vstd::string::*;

verus! {

/// A grant to give up: its key destroyed, and the broker that issued it told.
pub struct RevokeJob {
    pub grant: Grant,
    pub broker: Option<String>,
}

/// A privileged step to run in a second copy of this program.
pub struct ElevatedJob {
    pub action: Action,
    pub args: Vec<String>,
    /// Ask the OS about the realm again once it is done.
    pub recheck_enrollment: bool,
}

impl AgentModel {
    /// With a worker in the busy slot, running `action`.
    pub open spec fn occupied(self, action: Action) -> AgentModel {
        AgentModel { busy: true, ..self }.running(action)
    }

    /// With the sign-in worker started. Work nobody launched still gets an
    /// action's name: a scheduled renewal and a clicked *Renew now* are the same
    /// thing to the button that has to be disabled.
    pub open spec fn at_work(self, trigger: Trigger) -> AgentModel {
        if trigger is User {
            AgentModel {
                phase: Phase::SigningIn,
                message: sentence::plain(Phrase::Silence),
                fault: None,
                ..self.occupied(Action::SignIn)
            }
        } else {
            self.occupied(Action::ReinjectTicket)
        }
    }

    /// Whether a worker can be started at all.
    pub open spec fn can_start(self) -> bool {
        !self.busy && self.settings.broker_url() is Some
    }

    /// The sign-in run that a trigger starts.
    pub open spec fn sign_in_run(self, trigger: Trigger, refresh_token: Option<Seq<char>>) -> RunModel {
        RunModel {
            broker: self.settings.broker_url()->0,
            authorizing: false,
            silent: !(trigger is User),
            use_native: self.settings.windows_sign_in(),
            granted: self.settings.file.grant is Some,
            pin: self.settings.grant_for(),
            refresh_token,
            config: None,
            refused: None,
            flags: Flags { grant_stale: false, new_browser_session: false },
        }
    }

    /// The run that authorizes this machine.
    pub open spec fn authorize_run(self) -> RunModel {
        RunModel {
            broker: self.settings.broker_url()->0,
            authorizing: true,
            silent: false,
            use_native: self.settings.windows_sign_in(),
            granted: false,
            pin: self.settings.grant_for(),
            refresh_token: None,
            config: None,
            refused: None,
            flags: Flags { grant_stale: false, new_browser_session: false },
        }
    }

    /// With the grant forgotten and its revocation running.
    pub open spec fn giving_up(self) -> AgentModel {
        AgentModel {
            settings: self.settings.holding(None).expecting(None),
            ..self
        }.running(Action::GiveUpGrant)
    }
}

/// Start the sign-in worker, unless one is running or there is no broker to ask.
pub fn start_worker(a: &mut Agent, trigger: Trigger, refresh_token: Option<String>) -> (r: Option<Run>)
    ensures
        r is Some <==> old(a)@.can_start(),
        match r {
            Some(run) => final(a)@ == old(a)@.at_work(trigger) && run@ == old(a)@.sign_in_run(
                trigger,
                text::opt_text(refresh_token),
            ),
            None => final(a)@ == old(a)@,
        },
        old(a)@.sound() ==> final(a)@.sound(),
{
    if a.busy {
        return None;
    }
    let broker = match a.settings.broker_url() {
        Some(url) => url.to_owned(),
        None => {
            return None;
        },
    };
    let silent = trigger.silent();
    let use_native = a.settings.windows_sign_in();
    let granted = a.settings.grant().is_some();
    let pin = owned(a.settings.grant_for());
    a.busy = true;
    a.started(
        if silent {
            Action::ReinjectTicket
        } else {
            Action::SignIn
        },
    );
    if !silent {
        a.phase = Phase::SigningIn;
        a.message = say(Phrase::Silence);
        a.fault = None;
    }
    Some(Run::sign_in(broker, silent, use_native, granted, pin, refresh_token))
}

/// Authorize this machine to obtain tickets without a browser sign-in.
///
/// Every failure is reported at click time and none is probed for in advance: one
/// path covers no TPM, a TPM that is not prepared, lockout, policy and the device
/// cap alike, and a cached verdict would be stale exactly when it mattered.
pub fn create_grant(a: &mut Agent) -> (r: Option<Run>)
    ensures
        r is Some <==> old(a)@.can_start(),
        match r {
            Some(run) => final(a)@ == old(a)@.occupied(Action::CreateGrant) && run@
                == old(a)@.authorize_run(),
            None => final(a)@ == old(a)@,
        },
        old(a)@.sound() ==> final(a)@.sound(),
{
    if a.busy {
        return None;
    }
    let broker = match a.settings.broker_url() {
        Some(url) => url.to_owned(),
        None => {
            return None;
        },
    };
    let use_native = a.settings.windows_sign_in();
    let target = owned(a.settings.grant_for());
    a.busy = true;
    a.started(Action::CreateGrant);
    Some(Run::authorize(broker, use_native, target))
}

/// Give up this machine's device grant: forget it here, and have its key destroyed
/// and the broker told by a worker. Nothing after this can get a ticket without a
/// browser.
///
/// `broker` is passed rather than read here because the one caller that changes
/// it -- retargeting the agent -- must revoke at the broker that issued the grant,
/// not at the one the user has just typed in. The settings are the caller's to
/// save.
pub fn give_up_grant(a: &mut Agent, broker: Option<String>) -> (r: Option<RevokeJob>)
    ensures
        match r {
            Some(job) => old(a)@.settings.file.grant == Some(job.grant@) && text::opt_text(
                job.broker,
            ) == text::opt_text(broker) && final(a)@ == old(a)@.giving_up(),
            None => old(a)@.settings.file.grant is None && final(a)@ == old(a)@,
        },
        old(a)@.sound() ==> final(a)@.sound(),
{
    let grant = match copied_grant(a.settings.grant()) {
        Some(g) => g,
        None => {
            return None;
        },
    };
    a.settings.set_grant(None);
    // One of the two things that clear the expectation: whatever this machine was
    // authorized to be, it is not that now.
    a.settings.set_expected_working_as(None);
    a.started(Action::GiveUpGrant);
    Some(RevokeJob { grant, broker })
}

/// The arguments of an elevated one-shot: the step, what it is about, and where it
/// leaves its one sentence.
pub open spec fn elevated_args(
    flag: Seq<char>,
    broker: Option<Seq<char>>,
    result: Seq<char>,
) -> Seq<Seq<char>> {
    match broker {
        Some(url) => seq![flag, url, "--result"@, result],
        None => seq![flag, "--result"@, result],
    }
}

fn args_of(flag: &str, broker: Option<String>, result: &str) -> (r: Vec<String>)
    ensures
        text::texts(r@) == elevated_args(flag@, text::opt_text(broker), result@),
{
    let mut args: Vec<String> = Vec::new();
    args.push(flag.to_owned());
    if let Some(url) = broker {
        args.push(url);
    }
    args.push("--result".to_owned());
    args.push(result.to_owned());
    assert(text::texts(args@) =~= elevated_args(flag@, text::opt_text(broker), result@));
    args
}

/// Run one privileged step in a second copy of this program, unless a worker holds
/// the slot. **The child renders nothing**: the confirmation happened here, before
/// the prompt.
fn spawn_elevated(
    a: &mut Agent,
    flag: &str,
    broker: Option<String>,
    recheck_enrollment: bool,
    action: Action,
    result: &str,
) -> (r: Option<ElevatedJob>)
    ensures
        r is Some <==> !old(a)@.busy,
        match r {
            Some(job) => final(a)@ == old(a)@.occupied(action) && job.action == action
                && job.recheck_enrollment == recheck_enrollment && text::texts(job.args@)
                == elevated_args(flag@, text::opt_text(broker), result@),
            None => final(a)@ == old(a)@,
        },
{
    if a.busy {
        return None;
    }
    a.busy = true;
    a.started(action);
    Some(ElevatedJob { action, args: args_of(flag, broker, result), recheck_enrollment })
}

/// What a privileged step on the realm comes to: it needs a broker, and the slot.
pub open spec fn realm_step(
    m: AgentModel,
    next: AgentModel,
    r: Option<ElevatedJob>,
    flag: Seq<char>,
    action: Action,
    result: Seq<char>,
) -> bool {
    &&& r is Some <==> m.can_start()
    &&& match r {
        Some(job) => next == m.occupied(action) && job.action == action && job.recheck_enrollment
            && text::texts(job.args@) == elevated_args(flag, m.settings.broker_url(), result),
        None => next == m,
    }
}

/// Register the realm with Windows, then re-check.
pub fn begin_enroll(a: &mut Agent, result: &str) -> (r: Option<ElevatedJob>)
    ensures
        realm_step(old(a)@, final(a)@, r, "--enroll"@, Action::Enroll, result@),
{
    let broker = owned(a.settings.broker_url());
    if broker.is_none() {
        return None;
    }
    spawn_elevated(a, "--enroll", broker, true, Action::Enroll, result)
}

/// Remove the realm's registration from Windows.
pub fn begin_unenroll(a: &mut Agent, result: &str) -> (r: Option<ElevatedJob>)
    ensures
        realm_step(old(a)@, final(a)@, r, "--unenroll"@, Action::Unenroll, result@),
{
    let broker = owned(a.settings.broker_url());
    if broker.is_none() {
        return None;
    }
    spawn_elevated(a, "--unenroll", broker, true, Action::Unenroll, result)
}

/// Force a re-apply of the realm registration.
pub fn begin_reenroll(a: &mut Agent, result: &str) -> (r: Option<ElevatedJob>)
    ensures
        realm_step(old(a)@, final(a)@, r, "--reenroll"@, Action::Reenroll, result@),
{
    let broker = owned(a.settings.broker_url());
    if broker.is_none() {
        return None;
    }
    spawn_elevated(a, "--reenroll", broker, true, Action::Reenroll, result)
}

/// Restart the Workstation service.
pub fn begin_repair(a: &mut Agent, result: &str) -> (r: Option<ElevatedJob>)
    ensures
        r is Some <==> !old(a)@.busy,
        match r {
            Some(job) => final(a)@ == old(a)@.occupied(Action::RestartWorkstation) && job.action
                == Action::RestartWorkstation && !job.recheck_enrollment && text::texts(job.args@)
                == elevated_args("--repair"@, None, result@),
            None => final(a)@ == old(a)@,
        },
{
    spawn_elevated(a, "--repair", None, false, Action::RestartWorkstation, result)
}

// ------------------------------------------------------------------------ laws

/// Only one worker at a time holds the slot: nothing that needs it starts while it
/// is taken.
pub proof fn law_a_taken_slot_starts_nothing(m: AgentModel)
    requires
        m.busy,
    ensures
        !m.can_start(),
        forall|next: AgentModel, r: Option<ElevatedJob>, flag: Seq<char>, action: Action,
            result: Seq<char>| #[trigger]
            realm_step(m, next, r, flag, action, result) ==> r is None && next == m,
{
}

/// Giving up a grant forgets it and everything that was expected of it, and leaves
/// the session in the cache and the busy slot as they are.
pub proof fn law_giving_up_forgets_the_grant(m: AgentModel)
    ensures
        m.giving_up().settings.file.grant is None,
        !m.giving_up().expected(),
        m.giving_up().phase == m.phase,
        m.giving_up().end == m.end,
        m.giving_up().principal == m.principal,
        m.giving_up().busy == m.busy,
        m.giving_up().in_flight.contains(Action::GiveUpGrant),
{
    if !m.in_flight.contains(Action::GiveUpGrant) {
        let v = m.in_flight.push(Action::GiveUpGrant);
        assert(v[m.in_flight.len() as int] == Action::GiveUpGrant);
    }
}

/// A run is started with what the settings say, each in its own place: whom to ask, whether
/// anything may open, which credentials are there to try and for which account. Only a
/// click may open a window, and only an authorization passes a grant over.
pub proof fn law_a_run_starts_with_what_is_there(
    m: AgentModel,
    trigger: Trigger,
    refresh_token: Option<Seq<char>>,
)
    requires
        m.can_start(),
    ensures
        ({
            let s = m.sign_in_run(trigger, refresh_token);
            let z = m.authorize_run();
            &&& Some(s.broker) == m.settings.broker_url()
            &&& Some(z.broker) == m.settings.broker_url()
            &&& !s.authorizing && z.authorizing
            &&& s.silent <==> trigger != Trigger::User
            &&& !z.silent
            &&& s.use_native == m.settings.windows_sign_in()
            &&& z.use_native == m.settings.windows_sign_in()
            &&& s.granted <==> m.settings.file.grant is Some
            &&& !z.granted
            &&& s.pin == m.settings.grant_for()
            &&& z.pin == m.settings.grant_for()
            &&& s.refresh_token == refresh_token
            &&& z.refresh_token is None
            &&& s.config is None && z.config is None
            &&& s.refused is None && z.refused is None
            &&& !s.flags.grant_stale && !s.flags.new_browser_session
            &&& !z.flags.grant_stale && !z.flags.new_browser_session
        }),
        !m.busy,
{
}

/// A worker that starts takes the slot and shows as what it is: a click as signing in, with
/// what was said before it gone, and anything silent as a renewal that changes nothing
/// else.
pub proof fn law_a_worker_that_starts_shows(m: AgentModel, trigger: Trigger, action: Action)
    ensures
        m.can_start() <==> !m.busy && m.settings.broker_url() is Some,
        m.at_work(trigger).busy,
        trigger == Trigger::User ==> {
            let n = m.at_work(trigger);
            &&& n.in_flight.contains(Action::SignIn)
            &&& n.phase is SigningIn
            &&& n.fault is None && n.message.phrase is Silence
        },
        trigger != Trigger::User ==> {
            let n = m.at_work(trigger);
            &&& n.in_flight.contains(Action::ReinjectTicket)
            &&& n.phase == m.phase
            &&& n.fault == m.fault && n.message == m.message
        },
        m.at_work(trigger).end == m.end && m.at_work(trigger).principal == m.principal,
        m.at_work(trigger).settings == m.settings,
        m.at_work(trigger).refresh_at == m.refresh_at,
        m.occupied(action).busy && m.occupied(action).in_flight.contains(action),
        m.occupied(action).phase == m.phase && m.occupied(action).settings == m.settings,
        m.occupied(action).message == m.message && m.occupied(action).fault == m.fault,
{
    super::law_what_is_running(m, Action::SignIn, action);
    super::law_what_is_running(m, Action::ReinjectTicket, action);
    super::law_what_is_running(m, action, action);
}

/// An elevated step is told what to do, where the broker is if that matters to it, and
/// where to leave its answer, in that order.
pub proof fn law_what_an_elevated_step_is_told(flag: Seq<char>, url: Seq<char>, result: Seq<char>)
    ensures
        ({
            let a = elevated_args(flag, Some(url), result);
            &&& a.len() == 4
            &&& a[0] == flag && a[1] == url && a[2] == "--result"@ && a[3] == result
        }),
        ({
            let a = elevated_args(flag, None, result);
            &&& a.len() == 3
            &&& a[0] == flag && a[1] == "--result"@ && a[2] == result
        }),
{
}

} // verus!
