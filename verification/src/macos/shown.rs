//! What the menu bar shows, repainted only when it moves; what an action starts; and
//! what an agent does when it starts.

use super::menu::Plan;
use crate::agent::status::Status;
use crate::describe::{lists_blocker, Action, Blocker, Condition};
use crate::text::same;
use crate::{help_url_for, HELP_URL};
use vstd::prelude::*;
use vstd::string::*;

verus! {

/// The three things the menu bar shows.
pub struct Shown {
    pub condition: Condition,
    pub tooltip: String,
    pub plan: Plan,
}

/// Which of them has to be drawn again.
#[derive(Clone, Copy, PartialEq, Eq, Debug, Structural)]
pub struct Repaint {
    pub image: bool,
    pub tooltip: bool,
    pub menu: bool,
}

/// What a change from `was` to `now` draws again. A menu that is being tracked is
/// never replaced: what was missed is redrawn when it closes.
pub open spec fn repaint_of(was: Option<Shown>, now: Shown, menu_open: bool) -> Repaint {
    match was {
        None => Repaint { image: true, tooltip: true, menu: !menu_open },
        Some(w) => Repaint {
            image: w.condition != now.condition,
            tooltip: w.tooltip@ != now.tooltip@,
            menu: w.plan@ != now.plan@ && !menu_open,
        },
    }
}

impl Shown {
    /// What has to be drawn again, given what was last shown.
    pub fn refresh(&self, was: &Option<Shown>, menu_open: bool) -> (r: Repaint)
        ensures
            r == repaint_of(*was, *self, menu_open),
    {
        match was {
            None => Repaint { image: true, tooltip: true, menu: !menu_open },
            Some(w) => Repaint {
                image: w.condition != self.condition,
                tooltip: !same(w.tooltip.as_str(), self.tooltip.as_str()),
                menu: !w.plan.same_as(&self.plan) && !menu_open,
            },
        }
    }
}

/// The hover text: the app, and what it would say if you opened it.
pub fn tooltip(app_name: &str, headline: Option<&str>) -> (r: String)
    ensures
        r@ == (match headline {
            Some(h) => app_name@ + " — "@ + h@,
            None => app_name@,
        }),
{
    let mut s = app_name.to_owned();
    if let Some(h) = headline {
        s.append(" — ");
        s.append(h);
    }
    s
}

/// A machine with nothing configured has something to be told, and the menu is the
/// only affordance that says what. Anything else starts quietly, signing in only with
/// a credential already held.
pub fn shows_itself(st: &Status) -> (r: bool)
    ensures
        r == st.blockers@.contains(Blocker::NoBrokerUrl),
{
    lists_blocker(&st.blockers, Blocker::NoBrokerUrl)
}

/// What starting an action comes to here.
#[derive(Clone, Copy, PartialEq, Eq, Debug, Structural)]
pub enum Verb {
    SignIn,
    RenewNow,
    CancelSignIn,
    DropTicket,
    SignOutIdp,
    OpenSettings,
    /// This platform has no arm for it.
    Nothing,
}

/// Nothing here needs a confirmation, because the six operations that do are the ones
/// this platform has no arm for.
pub open spec fn verb_of(act: Action) -> Verb {
    match act {
        Action::SignIn => Verb::SignIn,
        Action::ReinjectTicket => Verb::RenewNow,
        Action::Cancel => Verb::CancelSignIn,
        Action::DropKrbTicket => Verb::DropTicket,
        Action::SignOutIdp => Verb::SignOutIdp,
        Action::OpenSettings => Verb::OpenSettings,
        _ => Verb::Nothing,
    }
}

pub fn start_action(act: Action) -> (r: Verb)
    ensures
        r == verb_of(act),
{
    match act {
        Action::SignIn => Verb::SignIn,
        Action::ReinjectTicket => Verb::RenewNow,
        Action::Cancel => Verb::CancelSignIn,
        Action::DropKrbTicket => Verb::DropTicket,
        Action::SignOutIdp => Verb::SignOutIdp,
        Action::OpenSettings => Verb::OpenSettings,
        Action::CreateGrant
        | Action::GiveUpGrant
        | Action::Enroll
        | Action::Reenroll
        | Action::Unenroll
        | Action::RestartWorkstation => Verb::Nothing,
    }
}

/// The page that *Help* opens: the deployment's own where it publishes one.
pub fn help_page(published: &str, lang: &str) -> (r: String)
    ensures
        r@ == crate::help_address(
            if published@.len() == 0 {
                HELP_URL@
            } else {
                published@
            },
            "mac"@,
            lang@,
        ),
{
    if published.is_empty() {
        help_url_for(HELP_URL, "mac", lang)
    } else {
        help_url_for(published, "mac", lang)
    }
}

// ------------------------------------------------------------------------ laws

/// A tick that changes nothing repaints nothing.
pub proof fn law_nothing_changed_repaints_nothing(now: Shown, menu_open: bool)
    ensures
        repaint_of(Some(now), now, menu_open) == (Repaint {
            image: false,
            tooltip: false,
            menu: false,
        }),
{
}

/// Everything the menu offers is something this platform can start.
pub proof fn law_every_offer_can_be_started(st: Status, act: Action)
    requires
        super::menu::offers(st).contains(act),
    ensures
        !(verb_of(act) is Nothing),
{
    crate::lists::filter_holds(super::menu::order(), super::menu::offered(st), act);
}

/// What changed is drawn again, and only that; a menu that is open is left alone, and what
/// has never been shown is drawn whole.
pub proof fn law_what_changed_is_drawn_again(was: Shown, now: Shown, menu_open: bool)
    ensures
        ({
            let r = repaint_of(Some(was), now, menu_open);
            &&& r.image <==> was.condition != now.condition
            &&& r.tooltip <==> was.tooltip@ != now.tooltip@
            &&& r.menu <==> !menu_open && was.plan@ != now.plan@
        }),
        ({
            let r = repaint_of(None, now, menu_open);
            r.image && r.tooltip && (r.menu <==> !menu_open)
        }),
{
}

/// What an offer does: each of the six its own, and the others nothing here.
pub proof fn law_what_an_offer_does(act: Action)
    ensures
        verb_of(act) == Verb::SignIn <==> act == Action::SignIn,
        verb_of(act) == Verb::RenewNow <==> act == Action::ReinjectTicket,
        verb_of(act) == Verb::CancelSignIn <==> act == Action::Cancel,
        verb_of(act) == Verb::DropTicket <==> act == Action::DropKrbTicket,
        verb_of(act) == Verb::SignOutIdp <==> act == Action::SignOutIdp,
        verb_of(act) == Verb::OpenSettings <==> act == Action::OpenSettings,
{
}

} // verus!
