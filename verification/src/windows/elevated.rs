//! Operations that run with administrator rights: register the realm with Windows
//! (`--enroll`, `--reenroll`), remove its registration (`--unenroll`), and restart
//! the redirector to clear an NTLM fallback (`--repair`).
//!
//! These run as a separate elevated process, not as an elevated tray: an elevated
//! process has a ticket cache of its own, and a ticket injected into it serves
//! nobody. **This process shows no UI.** It writes one sentence to the path the
//! parent gave. If the parent finds nothing there it says "couldn't confirm", and
//! fabricates no success.
//!
//! Only a URL crosses the privilege boundary: the plan comes from the broker, never
//! from the tray. The plan the parent showed is confirmation, not instruction.

use crate::elevate::Elevated;
use crate::enroll::State;
use crate::enroll::StateModel;
use crate::sentence;
use crate::sentence::{say, say_about, text_value, FillerModel, Phrase, Sentence, SentenceModel, Slot};
use crate::text;
use crate::text::same;
use vstd::prelude::*;
use vstd::string::*;

verus! {

/// What the child owes back: whether it worked, and the one sentence saying so.
pub struct Report {
    pub ok: bool,
    pub message: Sentence,
}

#[verifier::ext_equal]
pub struct ReportModel {
    pub ok: bool,
    pub message: SentenceModel,
}

impl View for Report {
    type V = ReportModel;

    open spec fn view(&self) -> ReportModel {
        ReportModel { ok: self.ok, message: self.message@ }
    }
}

impl Report {
    pub fn ok(message: Sentence) -> (r: Self)
        ensures
            r@ == (ReportModel { ok: true, message: message@ }),
    {
        Report { ok: true, message }
    }

    pub fn failed(message: Phrase) -> (r: Self)
        ensures
            r@ == failure(message),
    {
        Report { ok: false, message: say(message) }
    }

    /// The process exit code: 0 means the sentence is a success.
    pub fn exit_code(&self) -> (r: u32)
        ensures
            r == (if self@.ok {
                0u32
            } else {
                1u32
            }),
    {
        if self.ok {
            0
        } else {
            1
        }
    }
}

/// A report that something failed.
pub open spec fn failure(message: Phrase) -> ReportModel {
    ReportModel { ok: false, message: sentence::plain(message) }
}

/// A report that something about the realm worked.
pub open spec fn success(message: Phrase, realm: Seq<char>) -> ReportModel {
    ReportModel {
        ok: true,
        message: sentence::about(message, Slot::Realm, FillerModel::Text(realm)),
    }
}

/// What a verb asks for.
#[derive(Clone, Copy, PartialEq, Eq, Debug, Structural)]
pub enum Errand {
    /// With `force`, even where Windows already knows the realm.
    Enroll { force: bool },
    Unenroll,
    Repair,
}

pub open spec fn errand_of(mode: Seq<char>) -> Errand {
    if mode == "--enroll"@ {
        Errand::Enroll { force: false }
    } else if mode == "--reenroll"@ {
        Errand::Enroll { force: true }
    } else if mode == "--unenroll"@ {
        Errand::Unenroll
    } else {
        Errand::Repair
    }
}

pub fn errand(mode: &str) -> (r: Errand)
    ensures
        r == errand_of(mode@),
{
    if same(mode, "--enroll") {
        Errand::Enroll { force: false }
    } else if same(mode, "--reenroll") {
        Errand::Enroll { force: true }
    } else if same(mode, "--unenroll") {
        Errand::Unenroll
    } else {
        Errand::Repair
    }
}

/// How this program is started again with administrator rights. The result path is
/// kept, so whichever copy does the work is the one that writes the sentence.
pub open spec fn relaunched(mode: Seq<char>, broker: Seq<char>, result: Seq<char>) -> Seq<Seq<char>> {
    if broker.len() == 0 {
        seq![mode, "--result"@, result]
    } else {
        seq![mode, broker, "--result"@, result]
    }
}

pub fn relaunch_args(mode: &str, broker: &str, result: &str) -> (r: Vec<String>)
    ensures
        text::texts(r@) == relaunched(mode@, broker@, result@),
{
    let mut args: Vec<String> = Vec::new();
    args.push(mode.to_owned());
    if !broker.is_empty() {
        args.push(broker.to_owned());
    }
    args.push("--result".to_owned());
    args.push(result.to_owned());
    assert(text::texts(args@) =~= relaunched(mode@, broker@, result@));
    args
}

/// The exit code of a copy that only relaunched itself: the child's own, and 1 where
/// no child ran. Nothing is written then, which the parent reads as nothing to
/// confirm.
pub fn relaunch_code(ran: Option<Elevated>) -> (r: u32)
    ensures
        r == (match ran {
            Some(Elevated::Ran(code)) => code,
            _ => 1u32,
        }),
{
    match ran {
        Some(Elevated::Ran(code)) => code,
        _ => 1,
    }
}

/// What discovery found: the realm, and what Windows holds of it. `None` where it
/// failed.
pub open spec fn found_of(found: Option<(&str, &State)>) -> Option<(Seq<char>, StateModel)> {
    match found {
        Some((realm, state)) => Some((realm@, state@)),
        None => None,
    }
}

/// The report before anything is changed, and `None` where the realm is to be
/// registered.
pub open spec fn before_enrolling(
    found: Option<(Seq<char>, StateModel)>,
    force: bool,
) -> Option<ReportModel> {
    match found {
        None => Some(failure(Phrase::EnrollDiscoveryFailed)),
        Some((realm, state)) => if state is Enrolled && !force {
            Some(success(Phrase::EnrollAlready, realm))
        } else {
            None
        },
    }
}

/// A report as it is owed.
pub open spec fn is_report(r: Option<Report>, owed: Option<ReportModel>) -> bool {
    match r {
        Some(report) => owed == Some(report@),
        None => owed is None,
    }
}

fn worked(message: Phrase, realm: &str) -> (r: Report)
    ensures
        r@ == success(message, realm@),
{
    Report::ok(say_about(message, Slot::Realm, text_value(realm)))
}

pub fn begin_enroll(found: Option<(&str, &State)>, force: bool) -> (r: Option<Report>)
    ensures
        is_report(r, before_enrolling(found_of(found), force)),
{
    match found {
        None => Some(Report::failed(Phrase::EnrollDiscoveryFailed)),
        Some((realm, state)) => if !state.needs_action() && !force {
            Some(worked(Phrase::EnrollAlready, realm))
        } else {
            None
        },
    }
}

/// After the plan has been applied: what Windows then holds decides, not that every
/// step ran.
pub fn finish_enroll(realm: &str, state: &State) -> (r: Report)
    ensures
        r@ == (if state@ is Enrolled {
            success(Phrase::DlgEnrollResult, realm@)
        } else {
            failure(Phrase::EnrollIncomplete)
        }),
{
    if state.needs_action() {
        Report::failed(Phrase::EnrollIncomplete)
    } else {
        worked(Phrase::DlgEnrollResult, realm)
    }
}

/// The report before anything is changed, and `None` where the registration is to be
/// removed.
pub open spec fn before_unenrolling(found: Option<(Seq<char>, StateModel)>) -> Option<ReportModel> {
    match found {
        None => Some(failure(Phrase::EnrollDiscoveryFailed)),
        Some((realm, state)) => if state is NotEnrolled {
            Some(success(Phrase::UnenrollAlready, realm))
        } else {
            None
        },
    }
}

pub fn begin_unenroll(found: Option<(&str, &State)>) -> (r: Option<Report>)
    ensures
        is_report(r, before_unenrolling(found_of(found))),
{
    match found {
        None => Some(Report::failed(Phrase::EnrollDiscoveryFailed)),
        Some((realm, state)) => if matches!(state, State::NotEnrolled) {
            Some(worked(Phrase::UnenrollAlready, realm))
        } else {
            None
        },
    }
}

pub fn finish_unenroll(realm: &str, state: &State) -> (r: Report)
    ensures
        r@ == (if state@ is NotEnrolled {
            success(Phrase::DlgUnenrollResult, realm@)
        } else {
            failure(Phrase::UnenrollIncomplete)
        }),
{
    if matches!(state, State::NotEnrolled) {
        worked(Phrase::DlgUnenrollResult, realm)
    } else {
        Report::failed(Phrase::UnenrollIncomplete)
    }
}

/// After the restart, which went through or did not.
pub fn finish_repair(restarted: bool) -> (r: Report)
    ensures
        r@ == (if restarted {
            ReportModel { ok: true, message: sentence::plain(Phrase::DlgRepairResult) }
        } else {
            failure(Phrase::RepairIncomplete)
        }),
{
    if restarted {
        Report::ok(say(Phrase::DlgRepairResult))
    } else {
        Report::failed(Phrase::RepairIncomplete)
    }
}

// ------------------------------------------------------------------------ laws

/// What the parent asks for is what the child does: the relaunch spells the verb, the
/// broker and the result path so that reading them gives them back.
pub proof fn law_a_relaunch_is_read_back(mode: Seq<char>, broker: Seq<char>, result: Seq<char>)
    requires
        super::oneshot::is_verb(mode),
        !super::oneshot::is_flag(broker),
    ensures
        super::oneshot::asked(relaunched(mode, broker, result)) == super::oneshot::Parsed::Ok(
            (Some(mode), broker, result),
        ),
{
    super::oneshot::words_apart();
    reveal_with_fuel(super::oneshot::reading, 5);
    let args = relaunched(mode, broker, result);
    if broker.len() == 0 {
        assert(broker =~= Seq::empty());
        assert(args[0] == mode && args[1] == "--result"@ && args[2] == result && args.len() == 3);
    } else {
        assert(args[0] == mode && args[1] == broker && args[2] == "--result"@ && args[3] == result
            && args.len() == 4);
    }
}

/// Enrollment is only ever called a success where Windows then knows the realm as the
/// broker describes it.
pub proof fn law_no_enrollment_is_made_up(realm: Seq<char>, state: StateModel, force: bool)
    ensures
        before_enrolling(Some((realm, state)), force) matches Some(r) ==> (r.ok ==> state
            is Enrolled),
        before_enrolling(None, force) matches Some(r) ==> !r.ok,
        before_unenrolling(Some((realm, state))) matches Some(r) ==> (r.ok ==> state
            is NotEnrolled),
        before_unenrolling(None) matches Some(r) ==> !r.ok,
{
}

/// Every verb is its own errand, and only one of the two enrollments is forced.
pub proof fn law_every_verb_is_its_errand()
    ensures
        errand_of("--enroll"@) == (Errand::Enroll { force: false }),
        errand_of("--reenroll"@) == (Errand::Enroll { force: true }),
        errand_of("--unenroll"@) == Errand::Unenroll,
        errand_of("--repair"@) == Errand::Repair,
        forall|m: Seq<char>|
            m != "--enroll"@ && m != "--reenroll"@ && m != "--unenroll"@ ==> #[trigger] errand_of(m)
                == Errand::Repair,
{
    reveal_strlit("--enroll");
    reveal_strlit("--reenroll");
    reveal_strlit("--unenroll");
    reveal_strlit("--repair");
    assert("--enroll"@.len() == 8);
    assert("--reenroll"@.len() == 10);
    assert("--unenroll"@.len() == 10);
    assert("--repair"@.len() == 8);
    assert("--reenroll"@[2] == 'r' && "--unenroll"@[2] == 'u');
    assert("--enroll"@[2] == 'e' && "--repair"@[2] == 'r');
}

/// What is settled before anything is changed: without a discovery nothing can be; an
/// enrolled realm is not enrolled again unless forced, and one that is not registered is not
/// removed again; otherwise the work goes ahead.
pub proof fn law_what_is_settled_before_the_work(realm: Seq<char>, state: StateModel, force: bool)
    ensures
        ({
            let named = |p: Phrase|
                ReportModel {
                    ok: true,
                    message: sentence::about(p, Slot::Realm, FillerModel::Text(realm)),
                };
            let lost = ReportModel {
                ok: false,
                message: sentence::plain(Phrase::EnrollDiscoveryFailed),
            };
            &&& before_enrolling(None, force) == Some(lost)
            &&& before_unenrolling(None) == Some(lost)
            &&& state == StateModel::Enrolled && !force ==> before_enrolling(
                Some((realm, state)),
                force,
            ) == Some(named(Phrase::EnrollAlready))
            &&& state != StateModel::Enrolled || force ==> before_enrolling(
                Some((realm, state)),
                force,
            ) is None
            &&& state == StateModel::NotEnrolled ==> before_unenrolling(Some((realm, state)))
                == Some(named(Phrase::UnenrollAlready))
            &&& state != StateModel::NotEnrolled ==> before_unenrolling(Some((realm, state)))
                is None
        }),
{
}

} // verus!
