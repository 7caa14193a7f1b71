//! What no single surface owns: which verb an action is, what an agent does when it
//! starts, and when a notification is worth showing.

use super::present;
use super::present::ranked;
use crate::agent::schedule;
use crate::agent::status::Status;
use crate::describe::{lists_blocker, Action, Blocker};
use vstd::prelude::*;

verus! {

/// What starting an action comes to.
#[derive(Clone, Copy, PartialEq, Eq, Debug, Structural)]
pub enum Verb {
    SignIn,
    RenewNow,
    CancelSignIn,
    DropTicket,
    SignOutIdp,
    OpenSettings,
    /// Its dialog comes before it.
    Confirm(Action),
}

/// The six that change something irreversibly or need administrator rights go
/// through the dialog; everything else is a verb the agent already owns.
pub open spec fn verb_of(act: Action) -> Verb {
    match act {
        Action::SignIn => Verb::SignIn,
        Action::ReinjectTicket => Verb::RenewNow,
        Action::Cancel => Verb::CancelSignIn,
        Action::DropKrbTicket => Verb::DropTicket,
        Action::SignOutIdp => Verb::SignOutIdp,
        Action::OpenSettings => Verb::OpenSettings,
        _ => Verb::Confirm(act),
    }
}

/// Start one action, or open the dialog that has to come before it.
pub fn start_action(act: Action) -> (r: Verb)
    ensures
        r == verb_of(act),
{
    match act {
        Action::SignIn => Verb::SignIn,
        Action::ReinjectTicket => Verb::RenewNow,
        Action::Cancel => Verb::CancelSignIn,
        Action::DropKrbTicket => Verb::DropTicket,
        Action::SignOutIdp => Verb::SignOutIdp,
        Action::OpenSettings => Verb::OpenSettings,
        Action::CreateGrant
        | Action::GiveUpGrant
        | Action::Enroll
        | Action::Reenroll
        | Action::Unenroll
        | Action::RestartWorkstation => Verb::Confirm(act),
    }
}

/// Whether there is something to be told that only a surface can say.
pub open spec fn has_to_be_told(blockers: Seq<Blocker>) -> bool {
    blockers.contains(Blocker::NoBrokerUrl) || blockers.contains(Blocker::RealmNotRegistered)
}

/// A machine with nothing configured, or one Windows does not know the realm for,
/// shows its flyout when it starts. Anything else starts quietly, and "quietly"
/// includes signing in, when Windows can serve the credential without asking.
pub fn shows_itself(st: &Status) -> (r: bool)
    ensures
        r == has_to_be_told(st.blockers@),
{
    lists_blocker(&st.blockers, Blocker::NoBrokerUrl) || lists_blocker(
        &st.blockers,
        Blocker::RealmNotRegistered,
    )
}

/// An outcome is announced by whatever surface is on screen, and a notification is
/// what happens when none is.
pub fn worth_a_notification(flyout_visible: bool, modal_open: bool) -> (r: bool)
    ensures
        r == (!flyout_visible && !modal_open),
{
    !(flyout_visible || modal_open)
}

/// The action a notification names: the first of the front page, or none.
pub fn primary_action(st: &Status, now: i64) -> (r: Option<Action>)
    requires
        schedule::clock(now),
    ensures
        r == (if present::ranking(*st, now).len() > 0 {
            Some(present::ranking(*st, now)[0])
        } else {
            None
        }),
{
    let offer = ranked(st, now);
    if offer.len() > 0 {
        Some(offer[0])
    } else {
        None
    }
}

// ------------------------------------------------------------------------ laws

/// Nothing irreversible and nothing privileged starts without its dialog, and
/// everything else starts without one.
pub proof fn law_the_dialog_comes_first(act: Action)
    ensures
        verb_of(act) is Confirm <==> (act is CreateGrant || act is GiveUpGrant || act is Enroll
            || act is Reenroll || act is Unenroll || act is RestartWorkstation),
        super::modal::needs_shield(act) ==> verb_of(act) == Verb::Confirm(act),
{
}

/// What an operation's button does: six act at once, and every other asks first.
pub proof fn law_what_a_button_does(act: Action)
    ensures
        verb_of(act) == Verb::SignIn <==> act == Action::SignIn,
        verb_of(act) == Verb::RenewNow <==> act == Action::ReinjectTicket,
        verb_of(act) == Verb::CancelSignIn <==> act == Action::Cancel,
        verb_of(act) == Verb::DropTicket <==> act == Action::DropKrbTicket,
        verb_of(act) == Verb::SignOutIdp <==> act == Action::SignOutIdp,
        verb_of(act) == Verb::OpenSettings <==> act == Action::OpenSettings,
        verb_of(act) matches Verb::Confirm(b) ==> b == act,
{
}

/// A surface has to be told something exactly where there is no broker or no registered
/// realm.
pub proof fn law_when_somebody_has_to_tell(blockers: Seq<Blocker>)
    ensures
        has_to_be_told(blockers) <==> exists|i: int|
            0 <= i < blockers.len() && (#[trigger] blockers[i] == Blocker::NoBrokerUrl
                || blockers[i] == Blocker::RealmNotRegistered),
{
    if has_to_be_told(blockers) {
        let which = if blockers.contains(Blocker::NoBrokerUrl) {
            Blocker::NoBrokerUrl
        } else {
            Blocker::RealmNotRegistered
        };
        let i = choose|i: int| 0 <= i < blockers.len() && blockers[i] == which;
        assert(blockers[i] == which);
    }
}

} // verus!
