//! The subcommands that change this machine rather than this user's tickets: realm
//! registration and the NTLM-fallback repair.
//!
//! Every one of them elevates, and each relaunches a second copy for exactly the
//! privileged step rather than running the whole program elevated.

use crate::elevate::Elevated;
use crate::enroll::{State, StateModel};
use crate::text;
use crate::text::{decimal_of, joined, same, trim};
use vstd::prelude::*;
use vstd::string::*;

verus! {

/// Add a line.
fn put(lines: &mut Vec<String>, line: String)
    ensures
        text::texts(final(lines)@) == text::texts(old(lines)@).push(line@),
{
    let ghost was = lines@;
    lines.push(line);
    assert(text::texts(lines@) =~= text::texts(was).push(line@));
}

// ----------------------------------------------------------------------- the state

/// What Windows believes about a realm, in words.
pub open spec fn state_lines(realm: Seq<char>, state: StateModel) -> Seq<Seq<char>> {
    match state {
        StateModel::Enrolled => seq!["[kerbridge] "@ + realm + " is enrolled"@],
        StateModel::NotEnrolled => seq![
            "[kerbridge] "@ + realm + " is not registered with Windows"@,
        ],
        StateModel::Stale(diffs) => seq!["[kerbridge] "@ + realm + " needs attention:"@]
            + Seq::new(diffs.len(), |i: int| "  - "@ + diffs[i]),
    }
}

fn about_realm(realm: &str, said: &str) -> (r: String)
    ensures
        r@ == "[kerbridge] "@ + realm@ + said@,
{
    let mut s = "[kerbridge] ".to_owned();
    s.append(realm);
    s.append(said);
    s
}

/// What Windows believes about a realm, so that a caller who intends to act can be seen
/// to have looked.
pub fn report_enroll_state(realm: &str, state: &State) -> (r: Vec<String>)
    ensures
        text::texts(r@) == state_lines(realm@, state@),
{
    let mut lines: Vec<String> = Vec::new();
    assert(text::texts(lines@) =~= Seq::empty());
    match state {
        State::Enrolled => {
            put(&mut lines, about_realm(realm, " is enrolled"));
            assert(text::texts(lines@) =~= state_lines(realm@, state@));
        },
        State::NotEnrolled => {
            put(&mut lines, about_realm(realm, " is not registered with Windows"));
            assert(text::texts(lines@) =~= state_lines(realm@, state@));
        },
        State::Stale(diffs) => {
            let ghost all = text::texts(diffs@);
            put(&mut lines, about_realm(realm, " needs attention:"));
            let ghost head = text::texts(lines@);
            let mut i: usize = 0;
            assert(text::texts(lines@) =~= head + Seq::new(0, |k: int| "  - "@ + all[k]));
            while i < diffs.len()
                invariant
                    all == text::texts(diffs@),
                    i <= diffs@.len(),
                    text::texts(lines@) == head + Seq::new(i as nat, |k: int| "  - "@ + all[k]),
                decreases diffs@.len() - i,
            {
                put(&mut lines, joined("  - ", diffs[i].as_str()));
                assert(all[i as int] == diffs@[i as int]@);
                i = i + 1;
                assert(text::texts(lines@) =~= head + Seq::new(
                    i as nat,
                    |k: int| "  - "@ + all[k],
                ));
            }
            assert(text::texts(lines@) =~= state_lines(realm@, state@));
        },
    }
    lines
}

/// What `--enroll-status` reports on without a broker: the realm this machine has
/// cached, because the question is about the local registry. `None` where there is
/// none either.
pub fn local_report(cached: &str) -> (r: Option<String>)
    ensures
        text::opt_text(r) == (if cached@.len() == 0 {
            None
        } else {
            Some(
                "[kerbridge] no broker configured -- reporting "@ + cached@
                    + " from this machine alone"@,
            )
        }),
{
    if cached.is_empty() {
        return None;
    }
    let mut s = "[kerbridge] no broker configured -- reporting ".to_owned();
    s.append(cached);
    s.append(" from this machine alone");
    Some(s)
}

// ------------------------------------------------------------------------ a relaunch

/// What a relaunch came to, as an exit.
#[derive(PartialEq, Eq, Debug)]
pub enum Left {
    Done,
    /// The child did the work and wants a restart: the code has to pass out rather than
    /// read as a failed step.
    RebootRequired,
    /// A decision, which leaves with nothing to complain about.
    Declined(String),
    Failed(String),
}

#[verifier::ext_equal]
pub enum LeftModel {
    Done,
    RebootRequired,
    Declined(Seq<char>),
    Failed(Seq<char>),
}

impl View for Left {
    type V = LeftModel;

    open spec fn view(&self) -> LeftModel {
        match *self {
            Left::Done => LeftModel::Done,
            Left::RebootRequired => LeftModel::RebootRequired,
            Left::Declined(s) => LeftModel::Declined(s@),
            Left::Failed(s) => LeftModel::Failed(s@),
        }
    }
}

/// What a relaunch leaves as. `reboot` is the exit code of a step that worked and wants
/// a restart, which a deployment tool reads off the process it launched.
pub open spec fn left_as(outcome: Elevated, step: Seq<char>, reboot: u32) -> LeftModel {
    match outcome {
        Elevated::Ran(code) => if code == 0 {
            LeftModel::Done
        } else if code == reboot {
            LeftModel::RebootRequired
        } else {
            LeftModel::Failed(
                "the elevated "@ + step + " exited with code "@ + text::decimal(code as nat),
            )
        },
        Elevated::Declined => LeftModel::Declined(
            "[kerbridge] declined at the administrator prompt; nothing was changed."@,
        ),
        Elevated::Unavailable => LeftModel::Failed(
            "UAC is disabled here (EnableLUA=0), so the "@ + step
                + " cannot elevate itself; run it from an already-elevated shell"@,
        ),
    }
}

/// What an elevated relaunch came to. A non-zero code is the child's own, and it has
/// already printed why.
pub fn report_elevated(outcome: Elevated, step: &str, reboot: u32) -> (r: Left)
    ensures
        r@ == left_as(outcome, step@, reboot),
{
    match outcome {
        Elevated::Ran(code) => {
            if code == 0 {
                return Left::Done;
            }
            if code == reboot {
                return Left::RebootRequired;
            }
            let mut s = "the elevated ".to_owned();
            s.append(step);
            s.append(" exited with code ");
            s.append(decimal_of(code as u64).as_str());
            Left::Failed(s)
        },
        Elevated::Declined => Left::Declined(
            "[kerbridge] declined at the administrator prompt; nothing was changed.".to_owned(),
        ),
        Elevated::Unavailable => {
            let mut s = "UAC is disabled here (EnableLUA=0), so the ".to_owned();
            s.append(step);
            s.append(" cannot elevate itself; run it from an already-elevated shell");
            Left::Failed(s)
        },
    }
}

/// What an enrollment run does next.
#[derive(Clone, Copy, PartialEq, Eq, Debug, Structural)]
pub enum Next {
    /// Windows already knows the realm as the broker describes it.
    Nothing,
    /// Relaunch just this step with administrator rights.
    Elevate,
    /// Show the plan, ask, and apply it: the confirmation always happens in the process
    /// that will do the writing.
    Ask,
}

pub fn next_enroll(state: &State, force: bool, elevated: bool) -> (r: Next)
    ensures
        r == (if state@ is Enrolled && !force {
            Next::Nothing
        } else if !elevated {
            Next::Elevate
        } else {
            Next::Ask
        }),
{
    if !state.needs_action() && !force {
        Next::Nothing
    } else if !elevated {
        Next::Elevate
    } else {
        Next::Ask
    }
}

/// What is said where a change takes a restart to come into force.
pub const REBOOT_NOTICE: &'static str =
    "\n[kerbridge] reboot required: Windows caches realm state at boot.";

/// What a step that was applied leaves to do: the notice, where a restart is owed, and the
/// exit code that hands it on, where nobody is there to read the notice.
pub open spec fn owed(reboot_owed: bool, unattended: bool, code: u32) -> (
    Option<Seq<char>>,
    Option<u32>,
) {
    if !reboot_owed {
        (None, None)
    } else if unattended {
        (Some(REBOOT_NOTICE@), Some(code))
    } else {
        (Some(REBOOT_NOTICE@), None)
    }
}

/// An enrollment was applied. `code` is the exit code that a deployment tool reads as a
/// restart that is still to come.
pub fn enrolled(reboot_owed: bool, unattended: bool, code: u32) -> (r: (Option<String>, Option<u32>))
    ensures
        (text::opt_text(r.0), r.1) == owed(reboot_owed, unattended, code),
{
    if !reboot_owed {
        (None, None)
    } else if unattended {
        (Some(REBOOT_NOTICE.to_owned()), Some(code))
    } else {
        (Some(REBOOT_NOTICE.to_owned()), None)
    }
}

/// The unattended flag, where it was given.
pub open spec fn unattended(yes: bool) -> Seq<Seq<char>> {
    if yes {
        seq!["--yes"@]
    } else {
        seq![]
    }
}

fn put_unattended(args: &mut Vec<String>, yes: bool)
    ensures
        text::texts(final(args)@) == text::texts(old(args)@) + unattended(yes),
{
    let ghost was = text::texts(args@);
    if yes {
        put(args, "--yes".to_owned());
    }
    assert(text::texts(args@) =~= was + unattended(yes));
}

/// How an enrollment is relaunched.
pub fn enroll_args(broker: &str, force: bool, yes: bool) -> (r: Vec<String>)
    ensures
        text::texts(r@) == seq![
            "--broker"@,
            broker@,
            if force {
                "--reenroll"@
            } else {
                "--enroll"@
            },
        ] + unattended(yes),
{
    let mut args: Vec<String> = Vec::new();
    assert(text::texts(args@) =~= Seq::empty());
    put(&mut args, "--broker".to_owned());
    put(&mut args, broker.to_owned());
    let verb = if force {
        "--reenroll"
    } else {
        "--enroll"
    };
    put(&mut args, verb.to_owned());
    let ghost head = seq![
        "--broker"@,
        broker@,
        if force {
            "--reenroll"@
        } else {
            "--enroll"@
        },
    ];
    assert(text::texts(args@) =~= head);
    put_unattended(&mut args, yes);
    args
}

/// How an unenrollment is relaunched.
pub fn unenroll_args(broker: Option<&str>, yes: bool) -> (r: Vec<String>)
    ensures
        text::texts(r@) == seq!["--unenroll"@] + (match broker {
            Some(b) => seq!["--broker"@, b@],
            None => seq![],
        }) + unattended(yes),
{
    let mut args: Vec<String> = Vec::new();
    assert(text::texts(args@) =~= Seq::empty());
    put(&mut args, "--unenroll".to_owned());
    if let Some(b) = broker {
        put(&mut args, "--broker".to_owned());
        put(&mut args, b.to_owned());
    }
    let ghost head = seq!["--unenroll"@] + (match broker {
        Some(b) => seq!["--broker"@, b@],
        None => seq![],
    });
    assert(text::texts(args@) =~= head);
    put_unattended(&mut args, yes);
    args
}

/// How a repair is relaunched.
pub fn repair_args(yes: bool) -> (r: Vec<String>)
    ensures
        text::texts(r@) == seq!["--repair"@] + unattended(yes),
{
    let mut args: Vec<String> = Vec::new();
    assert(text::texts(args@) =~= Seq::empty());
    put(&mut args, "--repair".to_owned());
    assert(text::texts(args@) =~= seq!["--repair"@]);
    put_unattended(&mut args, yes);
    args
}

// ------------------------------------------------------------------------ the answer

/// Without the line breaks at its start.
pub open spec fn on_its_line(prompt: Seq<char>) -> Seq<char>
    decreases prompt.len(),
{
    if prompt.len() > 0 && prompt[0] == '\n' {
        on_its_line(prompt.drop_first())
    } else {
        prompt
    }
}

/// What stands in for a confirmation in an unattended run. The plan is printed either
/// way, so such a run still leaves in the log exactly what it ran -- what `--yes`
/// removes is the wait, not the record.
pub fn unattended_answer(prompt: &str) -> (r: String)
    ensures
        r@ == on_its_line(prompt@) + "yes (--yes)"@,
{
    let v = text::chars_of(prompt);
    let mut i: usize = 0;
    assert(v@.skip(0) =~= v@);
    while i < v.len() && v[i] == '\n'
        invariant
            v@ == prompt@,
            i <= v@.len(),
            on_its_line(v@.skip(i as int)) == on_its_line(prompt@),
        decreases v@.len() - i,
    {
        assert(v@.skip(i as int).drop_first() =~= v@.skip(i + 1));
        i = i + 1;
    }
    let rest = text::string_of(&v, i, v.len());
    assert(rest@ =~= v@.skip(i as int));
    joined(rest.as_str(), "yes (--yes)")
}

/// Whether an answer confirms.
pub fn confirms(answer: &str) -> (r: bool)
    ensures
        r == ({
            let said = text::trimmed(answer@);
            said == "y"@ || said == "Y"@ || said == "yes"@
        }),
{
    let said = trim(answer);
    same(said.as_str(), "y") || same(said.as_str(), "Y") || same(said.as_str(), "yes")
}

// ------------------------------------------------------------------------ laws

/// Only an explicit yes confirms: no answer at all does not.
pub proof fn law_silence_does_not_confirm()
    ensures
        ({
            let said = text::trimmed(Seq::empty());
            said != "y"@ && said != "Y"@ && said != "yes"@
        }),
{
    reveal_strlit("y");
    reveal_strlit("Y");
    reveal_strlit("yes");
}

/// A restart that is owed is never reported as a failure, and a decision is never one
/// either.
pub proof fn law_a_restart_is_no_failure(code: u32, step: Seq<char>, reboot: u32)
    ensures
        left_as(Elevated::Ran(code), step, reboot) is Failed <==> code != 0 && code != reboot,
        left_as(Elevated::Declined, step, reboot) is Declined,
{
}

/// A state is named with its realm, and a stale one with every difference, in order.
pub proof fn law_a_state_is_named(realm: Seq<char>, diffs: Seq<Seq<char>>, i: int)
    ensures
        state_lines(realm, StateModel::Enrolled) == seq!["[kerbridge] "@ + realm + " is enrolled"@],
        state_lines(realm, StateModel::NotEnrolled) == seq![
            "[kerbridge] "@ + realm + " is not registered with Windows"@,
        ],
        state_lines(realm, StateModel::Stale(diffs)).len() == diffs.len() + 1,
        state_lines(realm, StateModel::Stale(diffs))[0] == "[kerbridge] "@ + realm
            + " needs attention:"@,
        0 <= i < diffs.len() ==> state_lines(realm, StateModel::Stale(diffs))[i + 1] == "  - "@
            + diffs[i],
{
}

/// A step that ran is done with code 0, owes a restart with that code, and failed with any
/// other, which it names; one that never ran was declined or had no way to.
pub proof fn law_what_a_step_left(code: u32, step: Seq<char>, reboot: u32)
    ensures
        left_as(Elevated::Ran(0), step, reboot) == LeftModel::Done,
        code != 0 && code == reboot ==> left_as(Elevated::Ran(code), step, reboot)
            == LeftModel::RebootRequired,
        code != 0 && code != reboot ==> left_as(Elevated::Ran(code), step, reboot)
            == LeftModel::Failed(
            "the elevated "@ + step + " exited with code "@ + text::decimal(code as nat),
        ),
        left_as(Elevated::Unavailable, step, reboot) is Failed,
{
}

/// A restart that is owed is always said; only an unattended run ends in its code, and
/// nothing is said or returned where none is owed.
pub proof fn law_a_restart_that_is_owed_is_said(reboot_owed: bool, yes: bool, code: u32)
    ensures
        owed(reboot_owed, yes, code).0 is Some <==> reboot_owed,
        owed(reboot_owed, yes, code).1 == (if reboot_owed && yes {
            Some(code)
        } else {
            None
        }),
        unattended(yes) == (if yes {
            seq!["--yes"@]
        } else {
            Seq::empty()
        }),
{
}

/// A prompt starts on its line: line breaks in front of it go, and nothing else does.
pub proof fn law_a_prompt_starts_on_its_line(s: Seq<char>)
    ensures
        on_its_line(s.insert(0, '\n')) == on_its_line(s),
        s.len() == 0 || s[0] != '\n' ==> on_its_line(s) == s,
        on_its_line(s).is_suffix_of(s),
    decreases s.len(),
{
    assert(s.insert(0, '\n').drop_first() =~= s);
    if s.len() > 0 && s[0] == '\n' {
        let t = s.drop_first();
        law_a_prompt_starts_on_its_line(t);
        let r = on_its_line(s);
        assert forall|i: int| 0 <= i < r.len() implies r[i] == #[trigger] s.skip(s.len() - r.len())[i] by {
            assert(t.skip(t.len() - r.len())[i] == r[i]);
        }
    }
}

} // verus!
