//! One dialog, four phases, six operations.
//!
//! ```text
//! confirm ──commit──▶ waiting ──▶ working ──▶ result
//!    ▲                   │           │
//!    └────decline────────┘           └──Close──▶ detached, outcome → notification
//! ```
//!
//! **Confirm in the parent, then elevate**, never the other way round: nothing
//! about the confirmation needs privilege. The flyout can host none of this: it
//! hides on blur and the secure desktop takes focus, so the surface would vanish
//! exactly when it is meant to say *waiting*.
//!
//! **No Cancel and no Stop** once it runs. Cancel is impossible because none of
//! these operations is reversible, and Stop -- *leaves the partially completed
//! operation intact* -- is precisely the outcome that must not be offered. **Close
//! detaches instead**: the window goes, the work continues, and the outcome
//! arrives as a notification.

use super::sys;
use super::sys::dip_wide;
use super::ui;
use super::ui::{at_least_of, place_at, put, want_wide, Button, ButtonModel, Place, Role, Row, RowModel};
use crate::agent;
use crate::agent::commands::give_up_grant_now;
use crate::agent::jobs;
use crate::agent::jobs::{
    begin_enroll, begin_reenroll, begin_repair, begin_unenroll, create_grant, ElevatedJob,
    RevokeJob,
};
use crate::agent::schedule;
use crate::agent::schedule::days_left;
use crate::agent::signin::Run;
use crate::agent::status::Status;
use crate::agent::{Agent, Outcome, OutcomeModel, Severity};
use crate::describe::Action;
use crate::sentence;
use crate::sentence::{
    say, say_about, say_about3, text_value, Filler, FillerModel, Phrase, Sentence, SentenceModel,
    Slot,
};
use crate::text;
use crate::text::join_all;
use crate::words;
use crate::words::{words, Words, WordsModel};
use vstd::prelude::*;
use vstd::string::*;

verus! {

pub const CMD_COMMIT: u16 = 300;

pub const CMD_CLOSE: u16 = 301;

/// What the dialog manager posts when Escape is pressed.
pub const IDCANCEL: u16 = 2;

/// A busy indicator first, an **indeterminate** bar only after this long.
/// Determinate is impossible: progress through an opaque elevated child is not
/// observable.
///
/// **It will look dead on a healthy machine, and that is the point.** A restart
/// on a machine with nothing mounted finishes in about a second. But stopping the
/// service blocks on outstanding I/O, and the condition that triggers the repair
/// is the condition that makes the stop slow.
pub const BAR_AFTER_SECS: u32 = 5;

#[derive(Clone, Copy, PartialEq, Eq, Debug, Structural)]
pub enum Phase {
    Confirm,
    /// The secure desktop is up and nothing is running yet, and the dimmed
    /// desktop proves it. Shielded operations only.
    Waiting,
    Working,
    Result,
}

/// What the operation came to, as the dialog shows it.
pub struct Answer {
    pub ok: bool,
    pub message: Sentence,
    pub detail: Vec<Sentence>,
}

#[verifier::ext_equal]
pub struct AnswerModel {
    pub ok: bool,
    pub message: SentenceModel,
    pub detail: Seq<SentenceModel>,
}

impl View for Answer {
    type V = AnswerModel;

    open spec fn view(&self) -> AnswerModel {
        AnswerModel {
            ok: self.ok,
            message: self.message@,
            detail: sentence::sentences(self.detail@),
        }
    }
}

/// The dialog's own state.
pub struct State {
    /// The window has been made.
    pub window: bool,
    /// Which of the six is on screen. `None` when the window is not up -- which is
    /// also what makes a later outcome *detached*.
    pub op: Option<Action>,
    pub phase: Option<Phase>,
    /// Seconds the working phase has been on screen.
    pub elapsed: u32,
    pub result: Option<Answer>,
}

#[verifier::ext_equal]
pub struct StateModel {
    pub window: bool,
    pub op: Option<Action>,
    pub phase: Option<Phase>,
    pub elapsed: u32,
    pub result: Option<AnswerModel>,
}

impl View for State {
    type V = StateModel;

    open spec fn view(&self) -> StateModel {
        StateModel {
            window: self.window,
            op: self.op,
            phase: self.phase,
            elapsed: self.elapsed,
            result: match self.result {
                Some(a) => Some(a@),
                None => None,
            },
        }
    }
}

impl Default for State {
    fn default() -> (r: Self)
        ensures
            r@ == (StateModel { window: false, op: None, phase: None, elapsed: 0, result: None }),
    {
        State { window: false, op: None, phase: None, elapsed: 0, result: None }
    }
}

/// An outcome whose dialog is gone, or never was: a notification. Its body is the
/// message, and the detail after it.
pub struct Detached {
    pub title: Sentence,
    pub message: Sentence,
    pub detail: Vec<Sentence>,
    pub severity: Severity,
}

#[verifier::ext_equal]
pub struct DetachedModel {
    pub title: SentenceModel,
    pub message: SentenceModel,
    pub detail: Seq<SentenceModel>,
    pub severity: Severity,
}

impl View for Detached {
    type V = DetachedModel;

    open spec fn view(&self) -> DetachedModel {
        DetachedModel {
            title: self.title@,
            message: self.message@,
            detail: sentence::sentences(self.detail@),
            severity: self.severity,
        }
    }
}

/// The text of a notification's body.
pub open spec fn body_of(message: Seq<char>, detail: Option<Seq<char>>) -> Seq<char> {
    match detail {
        Some(d) => message + seq![' '] + d,
        None => message,
    }
}

pub fn body_text(message: &str, detail: Option<&str>) -> (r: String)
    ensures
        r@ == body_of(message@, text::opt_str(detail)),
{
    let mut s = message.to_owned();
    if let Some(d) = detail {
        proof {
            reveal_strlit(" ");
            assert(" "@ =~= seq![' ']);
        }
        s.append(" ");
        s.append(d);
    }
    s
}

/// Whether an operation needs administrator approval.
pub open spec fn needs_shield(op: Action) -> bool {
    op is Enroll || op is Reenroll || op is Unenroll || op is RestartWorkstation
}

/// **The shield goes on unconditionally**, even where the prompt is off or the user
/// is the built-in administrator, and it never reflects state. Removing an
/// authorization carries none: the grant key is user-scope, so destroying it needs
/// no elevation. Irreversible and privileged are independent properties and only
/// the second is the shield's business.
pub fn shielded(op: Action) -> (r: bool)
    ensures
        r == needs_shield(op),
{
    matches!(
        op,
        Action::Enroll | Action::Reenroll | Action::Unenroll | Action::RestartWorkstation
    )
}

/// What a notification about an operation is called. There is no per-failure
/// headline anywhere else in the product.
pub open spec fn titled(action: Action, ok: bool, realm: Seq<char>) -> SentenceModel {
    if ok {
        sentence::plain(Phrase::AppName)
    } else {
        match action {
            Action::Enroll => sentence::about(
                Phrase::FailTitleEnroll,
                Slot::Realm,
                FillerModel::Text(realm),
            ),
            Action::Reenroll => sentence::about(
                Phrase::FailTitleEnroll,
                Slot::Realm,
                FillerModel::Text(realm),
            ),
            Action::Unenroll => sentence::about(
                Phrase::FailTitleUnenroll,
                Slot::Realm,
                FillerModel::Text(realm),
            ),
            Action::RestartWorkstation => sentence::plain(Phrase::FailTitleRepair),
            _ => sentence::plain(Phrase::SettingsSectionAuthorization),
        }
    }
}

impl StateModel {
    /// In a phase, with the clock of that phase at its start.
    pub open spec fn at(self, phase: Phase) -> StateModel {
        StateModel { phase: Some(phase), elapsed: 0, ..self }
    }

    /// On the confirmation of an operation.
    pub open spec fn opened(self, op: Action, window: bool) -> StateModel {
        StateModel { window, op: Some(op), result: None, ..self }.at(Phase::Confirm)
    }

    /// Whether an outcome of this operation is this dialog's to show.
    pub open spec fn shows(self, action: Action) -> bool {
        self.op == Some(action) && self.window
    }

    /// With an answer on screen.
    pub open spec fn answered(self, answer: AnswerModel) -> StateModel {
        StateModel { result: Some(answer), ..self }.at(Phase::Result)
    }

    /// After an outcome.
    pub open spec fn after(self, action: Action, outcome: OutcomeModel) -> StateModel {
        if !self.shows(action) {
            self
        } else {
            match outcome {
                OutcomeModel::Declined => self.at(Phase::Confirm),
                OutcomeModel::Done { message, detail } => self.answered(
                    AnswerModel { ok: true, message, detail },
                ),
                OutcomeModel::Failed { message } => self.answered(
                    AnswerModel { ok: false, message, detail: Seq::empty() },
                ),
            }
        }
    }

    /// What an outcome notifies of.
    pub open spec fn detached(
        self,
        action: Action,
        outcome: OutcomeModel,
        realm: Seq<char>,
    ) -> Option<DetachedModel> {
        if self.shows(action) {
            None
        } else {
            match outcome {
                OutcomeModel::Declined => None,
                OutcomeModel::Done { message, detail } => Some(
                    DetachedModel {
                        title: titled(action, true, realm),
                        message,
                        detail,
                        severity: Severity::Info,
                    },
                ),
                OutcomeModel::Failed { message } => Some(
                    DetachedModel {
                        title: titled(action, false, realm),
                        message,
                        detail: Seq::empty(),
                        severity: Severity::Error,
                    },
                ),
            }
        }
    }

    /// Once the prompt has been answered and the child is running.
    pub open spec fn granted(self, action: Action) -> StateModel {
        if self.op == Some(action) && self.phase == Some(Phase::Waiting) {
            self.at(Phase::Working)
        } else {
            self
        }
    }

    /// With the window gone.
    pub open spec fn closed(self) -> StateModel {
        StateModel { op: None, phase: None, ..self }
    }

    /// After a commit that started something.
    pub open spec fn committed(self, op: Action) -> StateModel {
        self.at(
            if needs_shield(op) {
                Phase::Waiting
            } else {
                Phase::Working
            },
        )
    }
}

/// Something that a commit started.
pub enum Started {
    Elevated(ElevatedJob),
    Signing(Run),
    Revoking(RevokeJob),
}

fn title_of(action: Action, ok: bool, realm: &str) -> (r: Sentence)
    ensures
        r@ == titled(action, ok, realm@),
{
    if ok {
        return say(Phrase::AppName);
    }
    match action {
        Action::Enroll | Action::Reenroll => say_about(
            Phrase::FailTitleEnroll,
            Slot::Realm,
            text_value(realm),
        ),
        Action::Unenroll => say_about(Phrase::FailTitleUnenroll, Slot::Realm, text_value(realm)),
        Action::RestartWorkstation => say(Phrase::FailTitleRepair),
        _ => say(Phrase::SettingsSectionAuthorization),
    }
}

impl State {
    pub fn is_open(&self) -> (r: bool)
        ensures
            r == (self@.op is Some),
    {
        self.op.is_some()
    }

    /// Whether the clock of the working phase runs.
    pub fn ticks(&self) -> (r: bool)
        ensures
            r == (self@.phase == Some(Phase::Working)),
    {
        matches!(self.phase, Some(Phase::Working))
    }

    fn to_phase(&mut self, phase: Phase)
        ensures
            final(self)@ == old(self)@.at(phase),
    {
        self.phase = Some(phase);
        self.elapsed = 0;
    }

    /// Open the dialog on its confirmation. Nothing has happened yet and nothing
    /// will until the commit. `window` says whether there is a window to show.
    pub fn open(&mut self, op: Action, window: bool)
        ensures
            final(self)@ == old(self)@.opened(op, window),
    {
        self.window = window;
        self.op = Some(op);
        self.result = None;
        self.to_phase(Phase::Confirm);
    }

    fn shown(&self, action: Action) -> (r: bool)
        ensures
            r == self@.shows(action),
    {
        match self.op {
            Some(op) => op == action && self.window,
            None => false,
        }
    }

    /// One of the six finished. Rendered here while the window is up and about this
    /// operation; otherwise it detached, and the notification is what it becomes.
    pub fn finished(&mut self, action: Action, outcome: Outcome, realm: &str) -> (r: Option<Detached>)
        ensures
            final(self)@ == old(self)@.after(action, outcome@),
            match r {
                Some(d) => old(self)@.detached(action, outcome@, realm@) == Some(d@),
                None => old(self)@.detached(action, outcome@, realm@) is None,
            },
    {
        let mine = self.shown(action);
        match outcome {
            // A decision, not a fault: back to the question, unchanged and silent.
            Outcome::Declined => {
                if mine {
                    self.to_phase(Phase::Confirm);
                }
                None
            },
            Outcome::Done { message, detail } => self.report(
                mine,
                action,
                true,
                message,
                detail,
                realm,
            ),
            Outcome::Failed { message } => {
                let none: Vec<Sentence> = Vec::new();
                assert(sentence::sentences(none@) =~= Seq::empty());
                self.report(mine, action, false, message, none, realm)
            },
        }
    }

    fn report(
        &mut self,
        mine: bool,
        action: Action,
        ok: bool,
        message: Sentence,
        detail: Vec<Sentence>,
        realm: &str,
    ) -> (r: Option<Detached>)
        ensures
            match r {
                None => mine && final(self)@ == old(self)@.answered(
                    AnswerModel { ok, message: message@, detail: sentence::sentences(detail@) },
                ),
                Some(d) => !mine && final(self)@ == old(self)@ && d@ == (DetachedModel {
                    title: titled(action, ok, realm@),
                    message: message@,
                    detail: sentence::sentences(detail@),
                    severity: if ok {
                        Severity::Info
                    } else {
                        Severity::Error
                    },
                }),
            },
    {
        if mine {
            self.result = Some(Answer { ok, message, detail });
            self.to_phase(Phase::Result);
            return None;
        }
        let title = title_of(action, ok, realm);
        let severity = if ok {
            Severity::Info
        } else {
            Severity::Error
        };
        Some(Detached { title, message, detail, severity })
    }

    /// The prompt has been answered and the child is running.
    pub fn elevation_granted(&mut self, action: Action)
        ensures
            final(self)@ == old(self)@.granted(action),
    {
        let about = match self.op {
            Some(op) => op == action,
            None => false,
        };
        if about && matches!(self.phase, Some(Phase::Waiting)) {
            self.to_phase(Phase::Working);
        }
    }

    /// Close in the working phase detaches; anywhere else it is the ordinary
    /// dismissal.
    pub fn close(&mut self)
        ensures
            final(self)@ == old(self)@.closed(),
    {
        self.op = None;
        self.phase = None;
    }

    /// A second has passed. Returns whether the dialog has to be laid out again,
    /// which is when the bar is due.
    pub fn second(&mut self) -> (relaid: bool)
        requires
            old(self)@.elapsed < u32::MAX,
        ensures
            final(self)@ == (StateModel { elapsed: (old(self)@.elapsed + 1) as u32, ..old(self)@ }),
            relaid == (final(self)@.elapsed == BAR_AFTER_SECS),
    {
        self.elapsed = self.elapsed + 1;
        self.elapsed == BAR_AFTER_SECS
    }

    /// The commit, and the only place any of the six starts.
    ///
    /// Advanced only on something that actually started: every one of these refuses
    /// silently when the agent's single busy slot is taken, and a dialog that moved
    /// regardless would wait for work that never posts an outcome.
    pub fn commit(&mut self, a: &mut Agent, result: &str) -> (r: Option<Started>)
        ensures
            final(self)@ == (match (old(self)@.op, r) {
                (Some(op), Some(_)) => old(self)@.committed(op),
                _ => old(self)@,
            }),
            r is Some <==> (old(self)@.op matches Some(op) && starts(op, old(a)@)),
            r is None ==> final(a)@ == old(a)@,
            r matches Some(s) ==> final(a)@ == begun(old(self)@.op->0, old(a)@) && is_the_work(
                old(self)@.op->0,
                old(a)@,
                s,
                result@,
            ),
    {
        let op = match self.op {
            Some(op) => op,
            None => {
                return None;
            },
        };
        let started = match op {
            Action::Enroll => elevated(begin_enroll(a, result)),
            Action::Reenroll => elevated(begin_reenroll(a, result)),
            Action::Unenroll => elevated(begin_unenroll(a, result)),
            Action::RestartWorkstation => elevated(begin_repair(a, result)),
            Action::CreateGrant => match create_grant(a) {
                Some(run) => Some(Started::Signing(run)),
                None => None,
            },
            Action::GiveUpGrant => match give_up_grant_now(a) {
                Some(job) => Some(Started::Revoking(job)),
                None => None,
            },
            _ => None,
        };
        if started.is_some() {
            // Only the shielded ones have a permission to wait for; the grant key is
            // user-scope and a browser sign-in is not an elevation.
            self.to_phase(
                if shielded(op) {
                    Phase::Waiting
                } else {
                    Phase::Working
                },
            );
        }
        started
    }
}

/// Whether an operation can be started.
pub open spec fn starts(op: Action, m: agent::AgentModel) -> bool {
    match op {
        Action::Enroll => m.can_start(),
        Action::Reenroll => m.can_start(),
        Action::Unenroll => m.can_start(),
        Action::RestartWorkstation => !m.busy,
        Action::CreateGrant => m.can_start(),
        Action::GiveUpGrant => m.settings.file.grant is Some,
        _ => false,
    }
}

/// The agent with an operation started.
pub open spec fn begun(op: Action, m: agent::AgentModel) -> agent::AgentModel {
    if op is GiveUpGrant {
        m.giving_up()
    } else {
        m.occupied(op)
    }
}

/// A privileged step with these arguments.
pub open spec fn is_step(
    s: Started,
    op: Action,
    flag: Seq<char>,
    broker: Option<Seq<char>>,
    result: Seq<char>,
) -> bool {
    s matches Started::Elevated(job) && job.action == op && job.recheck_enrollment == !(
    op is RestartWorkstation) && text::texts(job.args@) == jobs::elevated_args(
        flag,
        broker,
        result,
    )
}

/// Whether `s` is what an operation hands to its worker.
pub open spec fn is_the_work(op: Action, m: agent::AgentModel, s: Started, result: Seq<char>) -> bool {
    match op {
        Action::Enroll => is_step(s, op, "--enroll"@, m.settings.broker_url(), result),
        Action::Reenroll => is_step(s, op, "--reenroll"@, m.settings.broker_url(), result),
        Action::Unenroll => is_step(s, op, "--unenroll"@, m.settings.broker_url(), result),
        Action::RestartWorkstation => is_step(s, op, "--repair"@, None, result),
        Action::CreateGrant => s matches Started::Signing(run) && run@ == m.authorize_run(),
        Action::GiveUpGrant => s matches Started::Revoking(job) && m.settings.file.grant == Some(
            job.grant@,
        ) && text::opt_text(job.broker) == m.settings.broker_url(),
        _ => false,
    }
}

fn elevated(job: Option<ElevatedJob>) -> (r: Option<Started>)
    ensures
        r is Some <==> job is Some,
        r matches Some(s) ==> s == Started::Elevated(job->0),
{
    match job {
        Some(job) => Some(Started::Elevated(job)),
        None => None,
    }
}

// -------------------------------------------------------------------- the words

/// What each operation states before the click: what it does in system terms, who
/// else pays *named*, and what to do first.
pub struct Prompt {
    pub question: Sentence,
    /// Prose paragraphs, in order.
    pub body: Vec<Sentence>,
    /// The literal plan, where the plan *is* the confirmation.
    pub plan: Option<String>,
    pub commit: Sentence,
    pub working: Sentence,
}

#[verifier::ext_equal]
pub struct PromptModel {
    pub question: SentenceModel,
    pub body: Seq<SentenceModel>,
    pub plan: Option<Seq<char>>,
    pub commit: SentenceModel,
    pub working: SentenceModel,
}

impl View for Prompt {
    type V = PromptModel;

    open spec fn view(&self) -> PromptModel {
        PromptModel {
            question: self.question@,
            body: sentence::sentences(self.body@),
            plan: text::opt_text(self.plan),
            commit: self.commit@,
            working: self.working@,
        }
    }
}

/// A sentence about the realm.
pub open spec fn of_realm(p: Phrase, realm: Seq<char>) -> SentenceModel {
    sentence::about(p, Slot::Realm, FillerModel::Text(realm))
}

/// The confirmation of a restart. Who else pays is generated rather than warned
/// about generically, and omitted when there is nothing to name.
pub open spec fn repair_prompt(realm: Seq<char>, dependents: Seq<Seq<char>>) -> PromptModel {
    PromptModel {
        question: sentence::plain(Phrase::DlgRepairQuestion),
        body: seq![of_realm(Phrase::DlgRepairBody, realm)] + (if dependents.len() > 0 {
            seq![
                sentence::about(
                    Phrase::DlgRepairDependents,
                    Slot::Services,
                    FillerModel::Text(text::join(dependents, ", "@)),
                ),
            ]
        } else {
            seq![]
        }) + seq![sentence::plain(Phrase::DlgRepairSave)],
        plan: None,
        commit: sentence::plain(Phrase::DlgRepairCommit),
        working: sentence::plain(Phrase::DlgRepairWorking),
    }
}

pub open spec fn enroll_prompt(realm: Seq<char>, plan: Seq<char>) -> PromptModel {
    PromptModel {
        question: of_realm(Phrase::DlgEnrollQuestion, realm),
        body: seq![
            sentence::plain(Phrase::DlgEnrollBody),
            sentence::plain(Phrase::DlgEnrollReboot),
        ],
        plan: Some(plan),
        commit: sentence::plain(Phrase::DlgEnrollCommit),
        working: sentence::plain(Phrase::DlgEnrollWorking),
    }
}

pub open spec fn unenroll_prompt(realm: Seq<char>, plan: Seq<char>) -> PromptModel {
    PromptModel {
        question: of_realm(Phrase::DlgUnenrollQuestion, realm),
        body: seq![
            sentence::plain(Phrase::DlgUnenrollBody),
            of_realm(Phrase::DlgUnenrollNote, realm),
        ],
        plan: Some(plan),
        commit: of_realm(Phrase::DlgUnenrollCommit, realm),
        working: of_realm(Phrase::DlgUnenrollWorking, realm),
    }
}

/// The confirmation of giving a grant up. Two bodies, keyed on the delegation --
/// the same value the exchange guard keys on, so the sentence and the machine
/// cannot disagree. A delegated machine is told what is left of the *ticket*: after
/// removal no renewal can land, so access stops at its end.
pub open spec fn give_up_prompt(st: Status) -> PromptModel {
    PromptModel {
        question: sentence::plain(Phrase::DlgGrantOffQuestion),
        body: seq![
            sentence::about(
                Phrase::DlgGrantOffBody,
                Slot::Broker,
                FillerModel::Text(st.broker_host@),
            ),
        ] + (if st.grant_target@.len() == 0 {
            seq![of_realm(Phrase::DlgGrantOffBodyOwn, st.realm@)]
        } else {
            match st.ticket {
                Some(t) if t.remaining > 0 => seq![
                    sentence::about3(
                        Phrase::DlgGrantOffBodyDelegated,
                        Slot::Target,
                        FillerModel::Text(st.grant_target@),
                        Slot::Realm,
                        FillerModel::Text(st.realm@),
                        Slot::Remaining,
                        FillerModel::Duration(t.remaining),
                    ),
                ],
                _ => seq![],
            }
        }),
        plan: None,
        commit: sentence::plain(Phrase::DlgGrantOffCommit),
        working: sentence::plain(Phrase::DlgGrantOffWorking),
    }
}

/// How long an authorization lasts: what is left of the one held, or what this
/// deployment gives.
pub open spec fn authorized_days(expiry: Option<i64>, grant_days: u32, now: i64) -> i64 {
    match expiry {
        Some(t) => schedule::days_to(t as int, now as int) as i64,
        None => grant_days as i64,
    }
}

pub open spec fn authorize_prompt(st: Status, grant_days: u32, now: i64) -> PromptModel {
    PromptModel {
        question: sentence::plain(Phrase::Silence),
        body: seq![
            sentence::about(
                Phrase::GrantConfirm,
                Slot::Days,
                FillerModel::Days(authorized_days(st.grant_expiry, grant_days, now)),
            ),
        ],
        plan: None,
        commit: sentence::plain(Phrase::DlgGrantCommit),
        working: sentence::plain(Phrase::DlgGrantWorking),
    }
}

/// The words of an operation.
pub open spec fn prompted(
    op: Action,
    st: Status,
    dependents: Seq<Seq<char>>,
    plan: Seq<char>,
    grant_days: u32,
    now: i64,
) -> PromptModel {
    match op {
        Action::RestartWorkstation => repair_prompt(st.realm@, dependents),
        Action::Enroll => enroll_prompt(st.realm@, plan),
        Action::Reenroll => enroll_prompt(st.realm@, plan),
        Action::Unenroll => unenroll_prompt(st.realm@, plan),
        Action::GiveUpGrant => give_up_prompt(st),
        _ => authorize_prompt(st, grant_days, now),
    }
}

fn about_realm(p: Phrase, realm: &str) -> (r: Sentence)
    ensures
        r@ == of_realm(p, realm@),
{
    say_about(p, Slot::Realm, text_value(realm))
}

fn add_sentence(v: &mut Vec<Sentence>, s: Sentence)
    ensures
        sentence::sentences(final(v)@) == sentence::sentences(old(v)@).push(s@),
{
    let ghost was = v@;
    v.push(s);
    assert(sentence::sentences(v@) =~= sentence::sentences(was).push(s@));
}

fn prompt_repair(realm: &str, dependents: &Vec<String>) -> (r: Prompt)
    ensures
        r@ == repair_prompt(realm@, text::texts(dependents@)),
{
    let mut body: Vec<Sentence> = Vec::new();
    add_sentence(&mut body, about_realm(Phrase::DlgRepairBody, realm));
    if dependents.len() > 0 {
        let names = join_all(dependents, ", ");
        add_sentence(
            &mut body,
            say_about(Phrase::DlgRepairDependents, Slot::Services, Filler::Text(names)),
        );
    }
    add_sentence(&mut body, say(Phrase::DlgRepairSave));
    let r = Prompt {
        question: say(Phrase::DlgRepairQuestion),
        body,
        plan: None,
        commit: say(Phrase::DlgRepairCommit),
        working: say(Phrase::DlgRepairWorking),
    };
    assert(r@ =~= repair_prompt(realm@, text::texts(dependents@)));
    r
}

fn prompt_enroll(realm: &str, plan: &str) -> (r: Prompt)
    ensures
        r@ == enroll_prompt(realm@, plan@),
{
    let mut body: Vec<Sentence> = Vec::new();
    add_sentence(&mut body, say(Phrase::DlgEnrollBody));
    add_sentence(&mut body, say(Phrase::DlgEnrollReboot));
    let r = Prompt {
        question: about_realm(Phrase::DlgEnrollQuestion, realm),
        body,
        plan: Some(plan.to_owned()),
        commit: say(Phrase::DlgEnrollCommit),
        working: say(Phrase::DlgEnrollWorking),
    };
    assert(r@ =~= enroll_prompt(realm@, plan@));
    r
}

fn prompt_unenroll(realm: &str, plan: &str) -> (r: Prompt)
    ensures
        r@ == unenroll_prompt(realm@, plan@),
{
    let mut body: Vec<Sentence> = Vec::new();
    add_sentence(&mut body, say(Phrase::DlgUnenrollBody));
    add_sentence(&mut body, about_realm(Phrase::DlgUnenrollNote, realm));
    let r = Prompt {
        question: about_realm(Phrase::DlgUnenrollQuestion, realm),
        body,
        plan: Some(plan.to_owned()),
        commit: about_realm(Phrase::DlgUnenrollCommit, realm),
        working: about_realm(Phrase::DlgUnenrollWorking, realm),
    };
    assert(r@ =~= unenroll_prompt(realm@, plan@));
    r
}

fn prompt_give_up(st: &Status) -> (r: Prompt)
    ensures
        r@ == give_up_prompt(*st),
{
    let mut body: Vec<Sentence> = Vec::new();
    add_sentence(
        &mut body,
        say_about(Phrase::DlgGrantOffBody, Slot::Broker, text_value(st.broker_host.as_str())),
    );
    if st.grant_target.as_str().is_empty() {
        add_sentence(&mut body, about_realm(Phrase::DlgGrantOffBodyOwn, st.realm.as_str()));
    } else if let Some(t) = &st.ticket {
        if t.remaining > 0 {
            add_sentence(
                &mut body,
                say_about3(
                    Phrase::DlgGrantOffBodyDelegated,
                    Slot::Target,
                    text_value(st.grant_target.as_str()),
                    Slot::Realm,
                    text_value(st.realm.as_str()),
                    Slot::Remaining,
                    Filler::Duration(t.remaining),
                ),
            );
        }
    }
    let r = Prompt {
        question: say(Phrase::DlgGrantOffQuestion),
        body,
        plan: None,
        commit: say(Phrase::DlgGrantOffCommit),
        working: say(Phrase::DlgGrantOffWorking),
    };
    assert(r@ =~= give_up_prompt(*st));
    r
}

fn prompt_authorize(st: &Status, grant_days: u32, now: i64) -> (r: Prompt)
    requires
        schedule::clock(now),
    ensures
        r@ == authorize_prompt(*st, grant_days, now),
{
    let left: i64 = match st.grant_expiry {
        Some(t) => days_left(t, now),
        None => grant_days as i64,
    };
    let mut body: Vec<Sentence> = Vec::new();
    add_sentence(&mut body, say_about(Phrase::GrantConfirm, Slot::Days, Filler::Days(left)));
    let r = Prompt {
        question: say(Phrase::Silence),
        body,
        plan: None,
        commit: say(Phrase::DlgGrantCommit),
        working: say(Phrase::DlgGrantWorking),
    };
    assert(r@ =~= authorize_prompt(*st, grant_days, now));
    r
}

/// What an operation states. `dependents` are the running services that a restart
/// stops too, `plan` the literal plan of the operation where it has one, and
/// `grant_days` what this deployment gives an authorization.
pub fn prompt_for(
    op: Action,
    st: &Status,
    dependents: &Vec<String>,
    plan: &str,
    grant_days: u32,
    now: i64,
) -> (r: Prompt)
    requires
        schedule::clock(now),
    ensures
        r@ == prompted(op, *st, text::texts(dependents@), plan@, grant_days, now),
{
    match op {
        Action::RestartWorkstation => prompt_repair(st.realm.as_str(), dependents),
        Action::Enroll | Action::Reenroll => prompt_enroll(st.realm.as_str(), plan),
        Action::Unenroll => prompt_unenroll(st.realm.as_str(), plan),
        Action::GiveUpGrant => prompt_give_up(st),
        _ => prompt_authorize(st, grant_days, now),
    }
}

// ------------------------------------------------------------------- the layout

/// A paragraph, with room above it unless it is the first.
pub open spec fn paragraphs(body: Seq<SentenceModel>, n: int) -> Seq<RowModel>
    decreases n,
{
    if n <= 0 {
        seq![]
    } else {
        paragraphs(body, n - 1) + (if n > 1 {
            seq![RowModel::Gap(8)]
        } else {
            seq![]
        }) + seq![RowModel::Wrap { text: WordsModel::Said(body[n - 1]), role: Role::Text }]
    }
}

/// The rows above the buttons.
pub open spec fn content(
    phase: Phase,
    elapsed: u32,
    result: Option<AnswerModel>,
    prompt: PromptModel,
) -> Seq<RowModel> {
    match phase {
        Phase::Confirm => (if prompt.question.phrase is Silence {
            seq![]
        } else {
            seq![
                RowModel::Title { text: WordsModel::Said(prompt.question), role: Role::Warn },
                RowModel::Gap(8),
            ]
        }) + paragraphs(prompt.body, prompt.body.len() as int) + (match prompt.plan {
            Some(plan) => seq![RowModel::Gap(8), RowModel::Mono { plan }],
            None => seq![],
        }),
        Phase::Waiting => seq![
            RowModel::Wrap { text: words::phrased(Phrase::DlgWaiting), role: Role::Text },
        ],
        Phase::Working => seq![
            RowModel::Wrap { text: WordsModel::Said(prompt.working), role: Role::Text },
        ] + (if elapsed >= BAR_AFTER_SECS {
            seq![RowModel::Gap(10), RowModel::Bar]
        } else {
            seq![]
        }),
        Phase::Result => match result {
            Some(a) => seq![
                RowModel::Wrap {
                    text: WordsModel::Said(a.message),
                    role: if a.ok {
                        Role::Text
                    } else {
                        Role::Warn
                    },
                },
            ] + (if a.detail.len() > 0 {
                seq![RowModel::Gap(6), RowModel::Lines { lines: a.detail, role: Role::Sub }]
            } else {
                seq![]
            }),
            None => seq![],
        },
    }
}

/// Whether something holds the agent's one busy slot.
pub open spec fn slot_taken(in_flight: Seq<Action>) -> bool {
    exists|i: int| 0 <= i < in_flight.len() && !(#[trigger] in_flight[i]).slotless()
}

/// The buttons under the content.
pub open spec fn footer(
    op: Action,
    phase: Phase,
    commit: SentenceModel,
    in_flight: Seq<Action>,
) -> Seq<ButtonModel> {
    if phase is Confirm {
        seq![
            ButtonModel {
                label: WordsModel::Said(commit),
                id: CMD_COMMIT,
                enabled: !(slot_taken(in_flight) && !op.slotless()),
                primary: false,
                shield: needs_shield(op),
            },
            ButtonModel {
                label: words::phrased(Phrase::BtnCancel),
                id: CMD_CLOSE,
                enabled: true,
                primary: true,
                shield: false,
            },
        ]
    } else {
        seq![
            ButtonModel {
                label: words::phrased(Phrase::DlgClose),
                id: CMD_CLOSE,
                enabled: !(phase is Waiting),
                primary: phase is Result,
                shield: false,
            },
        ]
    }
}

/// What the dialog shows: rows, a gap, and the buttons at the right.
pub struct Layout {
    pub rows: Vec<Row>,
    pub buttons: Vec<Button>,
}

fn put_confirm(rows: &mut Vec<Row>, prompt: Prompt)
    ensures
        rows_now(old(rows)@, final(rows)@, content(Phase::Confirm, 0, None, prompt@)),
{
    let ghost was = ui::rows_of(rows@);
    let ghost p = prompt@;
    let Prompt { question, body, plan, commit: _, working: _ } = prompt;
    let ghost head = if p.question.phrase is Silence {
        Seq::<RowModel>::empty()
    } else {
        seq![
            RowModel::Title { text: WordsModel::Said(p.question), role: Role::Warn },
            RowModel::Gap(8),
        ]
    };
    if !question.is_empty() {
        put(rows, Row::Title { text: Words::Said(question), role: Role::Warn });
        put(rows, Row::Gap(8));
    }
    assert(ui::rows_of(rows@) =~= was + head);
    let mut i: usize = 0;
    while i < body.len()
        invariant
            i <= body@.len(),
            p.body == sentence::sentences(body@),
            ui::rows_of(rows@) == was + head + paragraphs(p.body, i as int),
        decreases body@.len() - i,
    {
        let ghost before = ui::rows_of(rows@);
        if i > 0 {
            put(rows, Row::Gap(8));
        }
        put(rows, Row::Wrap { text: Words::Said(body[i].clone()), role: Role::Text });
        assert(p.body[i as int] == body@[i as int]@);
        assert(ui::rows_of(rows@) =~= was + head + paragraphs(p.body, i + 1));
        i = i + 1;
    }
    if let Some(plan) = plan {
        put(rows, Row::Gap(8));
        put(rows, Row::Mono { plan });
    }
    assert(ui::rows_of(rows@) =~= was + content(Phase::Confirm, 0, None, p));
}

/// Rows added under others.
pub open spec fn rows_now(before: Seq<Row>, after: Seq<Row>, added: Seq<RowModel>) -> bool {
    ui::rows_of(after) == ui::rows_of(before) + added
}

fn put_working(rows: &mut Vec<Row>, working: Sentence, elapsed: u32)
    ensures
        forall|p: PromptModel|
            p.working == working@ ==> rows_now(
                old(rows)@,
                final(rows)@,
                #[trigger] content(Phase::Working, elapsed, None, p),
            ),
{
    let ghost was = ui::rows_of(rows@);
    put(rows, Row::Wrap { text: Words::Said(working), role: Role::Text });
    if elapsed >= BAR_AFTER_SECS {
        put(rows, Row::Gap(10));
        put(rows, Row::Bar);
    }
    assert forall|p: PromptModel| p.working == working@ implies ui::rows_of(rows@) == was
        + #[trigger] content(Phase::Working, elapsed, None, p) by {
        assert(ui::rows_of(rows@) =~= was + content(Phase::Working, elapsed, None, p));
    }
}

fn copied_sentences(v: &Vec<Sentence>) -> (r: Vec<Sentence>)
    ensures
        sentence::sentences(r@) == sentence::sentences(v@),
{
    let mut out: Vec<Sentence> = Vec::new();
    let mut i: usize = 0;
    while i < v.len()
        invariant
            i <= v@.len(),
            sentence::sentences(out@) == sentence::sentences(v@).take(i as int),
        decreases v@.len() - i,
    {
        add_sentence(&mut out, v[i].clone());
        assert(sentence::sentences(v@).take(i + 1) =~= sentence::sentences(v@).take(
            i as int,
        ).push(v@[i as int]@));
        i = i + 1;
    }
    assert(sentence::sentences(v@).take(i as int) =~= sentence::sentences(v@));
    out
}

fn put_result(rows: &mut Vec<Row>, a: &Answer)
    ensures
        forall|p: PromptModel|
            rows_now(
                old(rows)@,
                final(rows)@,
                #[trigger] content(Phase::Result, 0, Some(a@), p),
            ),
{
    let ghost was = ui::rows_of(rows@);
    let role = if a.ok {
        Role::Text
    } else {
        Role::Warn
    };
    put(rows, Row::Wrap { text: Words::Said(a.message.clone()), role });
    if a.detail.len() > 0 {
        put(rows, Row::Gap(6));
        put(rows, Row::Lines { lines: copied_sentences(&a.detail), role: Role::Sub });
    }
    assert forall|p: PromptModel|
        ui::rows_of(rows@) == was + #[trigger] content(Phase::Result, 0, Some(a@), p) by {
        assert(ui::rows_of(rows@) =~= was + content(Phase::Result, 0, Some(a@), p));
    }
}

fn is_slot_taken(in_flight: &Vec<Action>) -> (r: bool)
    ensures
        r == slot_taken(in_flight@),
{
    let mut i: usize = 0;
    while i < in_flight.len()
        invariant
            i <= in_flight@.len(),
            forall|k: int| 0 <= k < i ==> (#[trigger] in_flight@[k]).slotless(),
        decreases in_flight@.len() - i,
    {
        if !in_flight[i].outside_busy_slot() {
            return true;
        }
        i = i + 1;
    }
    false
}

fn footer_buttons(op: Action, phase: Phase, commit: Sentence, in_flight: &Vec<Action>) -> (r: Vec<
    Button,
>)
    ensures
        ui::buttons_of(r@) == footer(op, phase, commit@, in_flight@),
{
    let mut out: Vec<Button> = Vec::new();
    if matches!(phase, Phase::Confirm) {
        // Disabled rather than hidden, like every other control here: the agent runs
        // one of these at a time, and a commit into an occupied slot starts nothing.
        let busy = is_slot_taken(in_flight);
        out.push(
            Button {
                label: Words::Said(commit),
                id: CMD_COMMIT,
                enabled: !(busy && !op.outside_busy_slot()),
                primary: false,
                shield: shielded(op),
            },
        );
        // Cancel is the default: this is the one place where the safe answer is the
        // one Enter gives.
        out.push(
            Button {
                label: words(Phrase::BtnCancel),
                id: CMD_CLOSE,
                enabled: true,
                primary: true,
                shield: false,
            },
        );
    } else {
        // While waiting, nothing is running yet and the secure desktop owns the
        // screen, so there is nothing here to dismiss.
        out.push(
            Button {
                label: words(Phrase::DlgClose),
                id: CMD_CLOSE,
                enabled: !matches!(phase, Phase::Waiting),
                primary: matches!(phase, Phase::Result),
                shield: false,
            },
        );
    }
    assert(ui::buttons_of(out@) =~= footer(op, phase, commit@, in_flight@));
    out
}

impl State {
    /// What is on screen, and `None` while nothing is.
    pub fn layout(&self, prompt: Prompt, in_flight: &Vec<Action>) -> (r: Option<Layout>)
        ensures
            match (self@.op, self@.phase, r) {
                (Some(op), Some(phase), Some(l)) => ui::rows_of(l.rows@) == content(
                    phase,
                    self@.elapsed,
                    self@.result,
                    prompt@,
                ).push(RowModel::Gap(16)) && ui::buttons_of(l.buttons@) == footer(
                    op,
                    phase,
                    prompt@.commit,
                    in_flight@,
                ),
                (Some(_), Some(_), None) => false,
                (_, _, Some(_)) => false,
                _ => true,
            },
    {
        let op = match self.op {
            Some(op) => op,
            None => {
                return None;
            },
        };
        let phase = match self.phase {
            Some(phase) => phase,
            None => {
                return None;
            },
        };
        let ghost p = prompt@;
        let mut rows: Vec<Row> = Vec::new();
        assert(ui::rows_of(rows@) =~= Seq::empty());
        let commit = prompt.commit.clone();
        match phase {
            Phase::Confirm => put_confirm(&mut rows, prompt),
            Phase::Waiting => put(
                &mut rows,
                Row::Wrap { text: words(Phrase::DlgWaiting), role: Role::Text },
            ),
            Phase::Working => put_working(&mut rows, prompt.working, self.elapsed),
            Phase::Result => if let Some(a) = &self.result {
                put_result(&mut rows, a);
            },
        }
        assert(ui::rows_of(rows@) =~= content(phase, self@.elapsed, self@.result, p)) by {
            assert(content(Phase::Confirm, 0, None, p) == content(
                Phase::Confirm,
                self@.elapsed,
                self@.result,
                p,
            ));
            assert(content(Phase::Working, self@.elapsed, None, p) == content(
                Phase::Working,
                self@.elapsed,
                self@.result,
                p,
            ));
            assert(content(Phase::Result, 0, self@.result, p) == content(
                Phase::Result,
                self@.elapsed,
                self@.result,
                p,
            ));
        }
        put(&mut rows, Row::Gap(16));
        let buttons = footer_buttons(op, phase, commit, in_flight);
        Some(Layout { rows, buttons })
    }
}

/// Where the commit button stands: as wide as its label wants and at least 110, left
/// of Cancel.
pub open spec fn commit_place(
    label: int,
    shield: bool,
    x: int,
    y: int,
    w: int,
    dpi: int,
) -> (int, int, int, int) {
    let bw = sys::dip_of(110, dpi);
    let cw = ui::at_least(ui::wants(label, shield, dpi), bw);
    (x + w - cw - sys::dip_of(8, dpi) - bw, y, cw, sys::dip_of(30, dpi))
}

/// Where Cancel and Close stand: at the right edge.
pub open spec fn close_place(x: int, y: int, w: int, dpi: int) -> (int, int, int, int) {
    let bw = sys::dip_of(110, dpi);
    (x + w - bw, y, bw, sys::dip_of(30, dpi))
}

/// The places of the commit button and of the one at the right edge.
pub fn footer_places(label: i32, shield: bool, x: i32, y: i32, w: i32, dpi: u32) -> (r: (Place, Place))
    requires
        ui::fits(
            commit_place(label as int, shield, x as int, y as int, w as int, dpi as int),
        ),
        ui::fits(close_place(x as int, y as int, w as int, dpi as int)),
    ensures
        ui::spot(r.0) == commit_place(
            label as int,
            shield,
            x as int,
            y as int,
            w as int,
            dpi as int,
        ),
        ui::spot(r.1) == close_place(x as int, y as int, w as int, dpi as int),
{
    let (x, y, w): (i64, i64, i64) = (x as i64, y as i64, w as i64);
    let bw: i64 = dip_wide(110, dpi);
    let bh: i64 = dip_wide(30, dpi);
    let gap: i64 = dip_wide(8, dpi);
    // 110 is a floor, not the width. Every commit label is a verb phrase rather than
    // a word, so a fixed width clips whichever is longest in whichever language.
    let cw: i64 = at_least_of(want_wide(label, shield, dpi), bw);
    let commit = place_at(x + w - cw - gap - bw, y, cw, bh);
    let close = place_at(x + w - bw, y, bw, bh);
    (commit, close)
}

// ------------------------------------------------------------------------ laws

/// No outcome is lost and none is told twice: a finished operation is either shown
/// in its dialog or becomes a notification, and a declined one is silent in both.
pub proof fn law_an_outcome_is_told_once(
    s: StateModel,
    action: Action,
    outcome: OutcomeModel,
    realm: Seq<char>,
)
    ensures
        outcome is Declined ==> s.detached(action, outcome, realm) is None,
        !(outcome is Declined) ==> (s.detached(action, outcome, realm) is None <==> s.after(
            action,
            outcome,
        ).phase == Some(Phase::Result) && s.after(action, outcome).result is Some && s.shows(
            action,
        )),
        s.detached(action, outcome, realm) is Some ==> s.after(action, outcome) == s,
{
}

/// A dialog that was closed while its operation ran has let go of it: the outcome
/// detaches, and nothing reopens the window.
pub proof fn law_closing_detaches(
    s: StateModel,
    action: Action,
    outcome: OutcomeModel,
    realm: Seq<char>,
)
    ensures
        s.closed().after(action, outcome) == s.closed(),
        s.closed().granted(action) == s.closed(),
        !(outcome is Declined) ==> s.closed().detached(action, outcome, realm) is Some,
{
}

/// Declining at the prompt goes back to the question of the same operation, with
/// nothing kept of the attempt.
pub proof fn law_declining_returns_to_the_question(s: StateModel, op: Action)
    requires
        s.window,
    ensures
        ({
            let asked = s.opened(op, true);
            asked.committed(op).after(op, OutcomeModel::Declined) == asked
        }),
{
}

/// Enter never commits, and there is always exactly one button that dismisses; it
/// can be pressed in every phase but the one where the secure desktop is up.
pub proof fn law_the_safe_answer_is_the_default(
    op: Action,
    phase: Phase,
    commit: SentenceModel,
    in_flight: Seq<Action>,
)
    ensures
        ({
            let b = footer(op, phase, commit, in_flight);
            &&& b.last().id == CMD_CLOSE
            &&& b.last().enabled <==> !(phase is Waiting)
            &&& forall|i: int|
                0 <= i < b.len() ==> ((#[trigger] b[i]).id == CMD_COMMIT ==> !b[i].primary
                    && phase is Confirm && i == 0)
        }),
{
}

/// Only an operation that needs administrator approval is waited on.
pub proof fn law_only_shielded_operations_wait(s: StateModel, op: Action)
    ensures
        s.committed(op).phase == Some(Phase::Waiting) <==> needs_shield(op),
        !needs_shield(op) ==> s.committed(op).phase == Some(Phase::Working),
{
}

/// A dialog opens on its question; committing goes to the prompt of the system where it
/// needs one and to work where it does not; a prompt that was answered goes to work; an
/// answer is shown; and each step starts its own clock.
pub proof fn law_how_a_dialog_goes_on(s: StateModel, op: Action, window: bool, a: AnswerModel)
    ensures
        ({
            let o = s.opened(op, window);
            &&& o.op == Some(op) && o.window == window && o.result is None
            &&& o.phase == Some(Phase::Confirm) && o.elapsed == 0
        }),
        s.committed(op).elapsed == 0 && s.committed(op).op == s.op && s.committed(op).result
            == s.result,
        s.op == Some(op) && s.phase == Some(Phase::Waiting) ==> s.granted(op).phase == Some(
            Phase::Working,
        ) && s.granted(op).elapsed == 0,
        !(s.op == Some(op) && s.phase == Some(Phase::Waiting)) ==> s.granted(op) == s,
        s.answered(a).result == Some(a) && s.answered(a).phase == Some(Phase::Result)
            && s.answered(a).op == s.op,
        s.closed().op is None && s.closed().phase is None,
        s.shows(op) <==> s.window && s.op == Some(op),
{
}

/// What an operation came to is shown in its own dialog as it came: done or failed, in its
/// words and with its details. Elsewhere it is told on its own, and as loudly as it ended.
pub proof fn law_an_outcome_is_shown_as_it_came(
    s: StateModel,
    op: Action,
    message: SentenceModel,
    detail: Seq<SentenceModel>,
    realm: Seq<char>,
)
    ensures
        s.shows(op) ==> s.after(op, OutcomeModel::Done { message, detail }).result == Some(
            AnswerModel { ok: true, message, detail },
        ),
        s.shows(op) ==> s.after(op, OutcomeModel::Failed { message }).result == Some(
            AnswerModel { ok: false, message, detail: Seq::empty() },
        ),
        !s.shows(op) ==> s.detached(op, OutcomeModel::Done { message, detail }, realm) == Some(
            DetachedModel {
                title: sentence::plain(Phrase::AppName),
                message,
                detail,
                severity: Severity::Info,
            },
        ),
        !s.shows(op) ==> (s.detached(op, OutcomeModel::Failed { message }, realm) matches Some(d)
            && d.message == message && d.detail.len() == 0 && d.severity == Severity::Error
            && d.title == titled(op, false, realm)),
        op == Action::Enroll || op == Action::Reenroll ==> titled(op, false, realm)
            == sentence::about(Phrase::FailTitleEnroll, Slot::Realm, FillerModel::Text(realm)),
        op == Action::Unenroll ==> titled(op, false, realm) == sentence::about(
            Phrase::FailTitleUnenroll,
            Slot::Realm,
            FillerModel::Text(realm),
        ),
        op == Action::RestartWorkstation ==> titled(op, false, realm) == sentence::plain(
            Phrase::FailTitleRepair,
        ),
{
}

/// Which operations ask an administrator, and when each can begin.
pub proof fn law_when_an_operation_can_begin(op: Action, m: agent::AgentModel)
    ensures
        needs_shield(op) <==> op == Action::Enroll || op == Action::Reenroll || op
            == Action::Unenroll || op == Action::RestartWorkstation,
        op == Action::Enroll || op == Action::Reenroll || op == Action::Unenroll || op
            == Action::CreateGrant ==> (starts(op, m) <==> !m.busy && m.settings.broker_url()
            is Some),
        op == Action::RestartWorkstation ==> (starts(op, m) <==> !m.busy),
        op == Action::GiveUpGrant ==> (starts(op, m) <==> m.settings.file.grant is Some),
        starts(op, m) ==> op == Action::Enroll || op == Action::Reenroll || op == Action::Unenroll
            || op == Action::CreateGrant || op == Action::RestartWorkstation || op
            == Action::GiveUpGrant,
        op != Action::GiveUpGrant ==> begun(op, m).busy && begun(op, m).in_flight.contains(op),
        begun(Action::GiveUpGrant, m).busy == m.busy,
        begun(Action::GiveUpGrant, m).settings.file.grant is None,
{
    jobs::law_a_worker_that_starts_shows(m, agent::Trigger::User, op);
    jobs::law_giving_up_forgets_the_grant(m);
}

/// Every operation asks its own question, about the realm, the broker, the account or the
/// days it is about.
pub proof fn law_every_operation_asks_its_question(
    op: Action,
    st: Status,
    dependents: Seq<Seq<char>>,
    plan: Seq<char>,
    grant_days: u32,
    now: i64,
)
    ensures
        ({
            let p = prompted(op, st, dependents, plan, grant_days, now);
            let realm = FillerModel::Text(st.realm@);
            &&& op == Action::RestartWorkstation ==> p.question == sentence::plain(
                Phrase::DlgRepairQuestion,
            ) && p.plan is None && p.commit == sentence::plain(Phrase::DlgRepairCommit) && p.working
                == sentence::plain(Phrase::DlgRepairWorking) && p.body[0] == sentence::about(
                Phrase::DlgRepairBody,
                Slot::Realm,
                realm,
            ) && p.body.last() == sentence::plain(Phrase::DlgRepairSave) && p.body.len() == (
            if dependents.len() > 0 {
                3int
            } else {
                2int
            })
            &&& op == Action::RestartWorkstation && dependents.len() > 0 ==> p.body[1]
                == sentence::about(
                Phrase::DlgRepairDependents,
                Slot::Services,
                FillerModel::Text(text::join(dependents, ", "@)),
            )
            &&& op == Action::Enroll || op == Action::Reenroll ==> p.question == sentence::about(
                Phrase::DlgEnrollQuestion,
                Slot::Realm,
                realm,
            ) && p.plan == Some(plan) && p.commit == sentence::plain(Phrase::DlgEnrollCommit)
                && p.working == sentence::plain(Phrase::DlgEnrollWorking)
            &&& op == Action::Unenroll ==> p.question == sentence::about(
                Phrase::DlgUnenrollQuestion,
                Slot::Realm,
                realm,
            ) && p.plan == Some(plan) && p.commit == sentence::about(
                Phrase::DlgUnenrollCommit,
                Slot::Realm,
                realm,
            ) && p.working == sentence::about(Phrase::DlgUnenrollWorking, Slot::Realm, realm)
            &&& op == Action::GiveUpGrant ==> p.question == sentence::plain(
                Phrase::DlgGrantOffQuestion,
            ) && p.plan is None && p.commit == sentence::plain(Phrase::DlgGrantOffCommit)
                && p.body[0] == sentence::about(
                Phrase::DlgGrantOffBody,
                Slot::Broker,
                FillerModel::Text(st.broker_host@),
            )
            &&& op == Action::GiveUpGrant && st.grant_target@.len() == 0 ==> p.body.len() == 2
                && p.body[1] == sentence::about(Phrase::DlgGrantOffBodyOwn, Slot::Realm, realm)
            &&& op == Action::GiveUpGrant && st.grant_target@.len() > 0 ==> (p.body.len() == 2
                <==> st.ticket is Some && (st.ticket->0).remaining > 0)
            &&& op == Action::CreateGrant ==> p.commit == sentence::plain(Phrase::DlgGrantCommit)
                && p.body.len() == 1 && p.plan is None && p.body[0] == sentence::about(
                Phrase::GrantConfirm,
                Slot::Days,
                FillerModel::Days(
                    match st.grant_expiry {
                        Some(t) => schedule::days_to(t as int, now as int) as i64,
                        None => grant_days as i64,
                    },
                ),
            )
        }),
{
}

/// What a dialog shows in each of its steps: the question and what it means, that it waits,
/// that it works -- with a bar after five seconds -- and what it came to.
pub proof fn law_what_a_dialog_shows(elapsed: u32, a: AnswerModel, p: PromptModel)
    ensures
        content(Phase::Waiting, elapsed, Some(a), p) == seq![
            RowModel::Wrap { text: words::phrased(Phrase::DlgWaiting), role: Role::Text },
        ],
        content(Phase::Working, elapsed, Some(a), p)[0] == (RowModel::Wrap {
            text: WordsModel::Said(p.working),
            role: Role::Text,
        }),
        content(Phase::Working, elapsed, Some(a), p).len() == (if elapsed >= 5 {
            3int
        } else {
            1int
        }),
        elapsed >= 5 ==> content(Phase::Working, elapsed, Some(a), p)[2] == RowModel::Bar,
        content(Phase::Result, elapsed, None, p).len() == 0,
        content(Phase::Result, elapsed, Some(a), p)[0] == (RowModel::Wrap {
            text: WordsModel::Said(a.message),
            role: if a.ok {
                Role::Text
            } else {
                Role::Warn
            },
        }),
        content(Phase::Result, elapsed, Some(a), p).len() == (if a.detail.len() > 0 {
            3int
        } else {
            1int
        }),
        a.detail.len() > 0 ==> content(Phase::Result, elapsed, Some(a), p)[2] == (RowModel::Lines {
            lines: a.detail,
            role: Role::Sub,
        }),
        !(p.question.phrase is Silence) ==> content(Phase::Confirm, elapsed, Some(a), p)[0] == (
        RowModel::Title { text: WordsModel::Said(p.question), role: Role::Warn }),
        p.plan matches Some(plan) ==> content(Phase::Confirm, elapsed, Some(a), p).last() == (
        RowModel::Mono { plan }),
{
}

/// What can be pressed: to commit, unless another worker holds the slot that it needs, or to
/// close; and while the system's own prompt is up, nothing.
pub proof fn law_what_can_be_pressed(
    op: Action,
    phase: Phase,
    commit: SentenceModel,
    in_flight: Seq<Action>,
)
    ensures
        ({
            let f = footer(op, phase, commit, in_flight);
            let taken = exists|i: int|
                0 <= i < in_flight.len() && #[trigger] in_flight[i] != Action::SignOutIdp
                    && in_flight[i] != Action::GiveUpGrant;
            &&& phase is Confirm ==> f.len() == 2 && f[0].id == 300 && f[1].id == 301 && f[0].label
                == WordsModel::Said(commit) && f[1].enabled && f[0].shield == needs_shield(op)
            &&& phase is Confirm && op != Action::SignOutIdp && op != Action::GiveUpGrant ==> (
            f[0].enabled <==> !taken)
            &&& phase is Confirm && (op == Action::SignOutIdp || op == Action::GiveUpGrant)
                ==> f[0].enabled
            &&& !(phase is Confirm) ==> f.len() == 1 && f[0].id == 301 && (f[0].enabled <==> !(
            phase is Waiting)) && (f[0].primary <==> phase is Result)
        }),
{
    if slot_taken(in_flight) {
        let i = choose|i: int| 0 <= i < in_flight.len() && !(#[trigger] in_flight[i]).slotless();
        assert(in_flight[i] != Action::SignOutIdp && in_flight[i] != Action::GiveUpGrant);
    }
    if exists|i: int|
        0 <= i < in_flight.len() && #[trigger] in_flight[i] != Action::SignOutIdp && in_flight[i]
            != Action::GiveUpGrant {
        let i = choose|i: int|
            0 <= i < in_flight.len() && #[trigger] in_flight[i] != Action::SignOutIdp
                && in_flight[i] != Action::GiveUpGrant;
        assert(!in_flight[i].slotless());
    }
}

/// What an operation starts: the elevated step of its own name, a run that authorizes, or
/// the revocation of the grant that is held, at the broker that is configured.
pub proof fn law_what_an_operation_starts(
    op: Action,
    m: agent::AgentModel,
    s: Started,
    result: Seq<char>,
)
    requires
        is_the_work(op, m, s, result),
    ensures
        s matches Started::Elevated(job) ==> job.action == op && (job.recheck_enrollment <==> op
            != Action::RestartWorkstation),
        s matches Started::Elevated(job) ==> text::texts(job.args@)[0] == (match op {
            Action::Enroll => "--enroll"@,
            Action::Reenroll => "--reenroll"@,
            Action::Unenroll => "--unenroll"@,
            _ => "--repair"@,
        }) && text::texts(job.args@).last() == result,
        s matches Started::Elevated(job) ==> (op != Action::RestartWorkstation ==> (
        m.settings.broker_url() matches Some(url) ==> text::texts(job.args@)[1] == url)),
        s is Elevated <==> op == Action::Enroll || op == Action::Reenroll || op == Action::Unenroll
            || op == Action::RestartWorkstation,
        s is Signing <==> op == Action::CreateGrant,
        s is Revoking <==> op == Action::GiveUpGrant,
        s matches Started::Signing(run) ==> run@ == m.authorize_run(),
        s matches Started::Revoking(job) ==> Some(job.grant@) == m.settings.file.grant
            && text::opt_text(job.broker) == m.settings.broker_url(),
{
}

/// A body has its paragraphs in order, with air between any two.
pub proof fn law_a_body_has_its_paragraphs(body: Seq<SentenceModel>, n: int, i: int)
    requires
        0 <= i < n <= body.len(),
    ensures
        paragraphs(body, n).len() == 2 * n - 1,
        paragraphs(body, n)[2 * i] == (RowModel::Wrap {
            text: WordsModel::Said(body[i]),
            role: Role::Text,
        }),
        i > 0 ==> paragraphs(body, n)[2 * i - 1] == RowModel::Gap(8),
    decreases n,
{
    let one = seq![RowModel::Wrap { text: WordsModel::Said(body[n - 1]), role: Role::Text }];
    if n > 1 {
        let k = if i < n - 1 {
            i
        } else {
            0
        };
        law_a_body_has_its_paragraphs(body, n - 1, k);
        let before = paragraphs(body, n - 1);
        assert(paragraphs(body, n) == before + seq![RowModel::Gap(8)] + one);
    } else {
        assert(paragraphs(body, 0) == Seq::<RowModel>::empty());
        assert(paragraphs(body, n) =~= one);
    }
}

/// Commit and close stand at the right edge, the close button outermost and 110 wide, eight
/// apart, neither narrower than that.
pub proof fn law_where_the_footer_stands(label: int, shield: bool, x: int, y: int, w: int)
    ensures
        ({
            let a = commit_place(label, shield, x, y, w, 96);
            let b = close_place(x, y, w, 96);
            &&& b == (x + w - 110, y, 110int, 30int)
            &&& a.0 + a.2 + 8 == b.0
            &&& a.1 == y && a.3 == 30
            &&& a.2 >= 110 && a.2 >= ui::wants(label, shield, 96)
            &&& a.2 == 110 || a.2 == ui::wants(label, shield, 96)
        }),
{
}

/// What a toast says is the message and, behind a blank, the first detail where there is one.
pub proof fn law_what_a_toast_says(message: Seq<char>, detail: Seq<char>)
    ensures
        body_of(message, None) == message,
        body_of(message, Some(detail)) == message + seq![' '] + detail,
{
}

} // verus!
