//! A status in, this surface's ordering and color roles out. No window, no
//! drawing -- but everything here is the flyout's own judgment.
//!
//! The words are not: they are the product's copy. What is left here is what a
//! small popup with two buttons decides for itself -- [`ranked`] is the only
//! ordering in this product, and [`infotip`] is bounded by what a tray icon's tip
//! holds.

use super::sys;
use super::sys::wide;
use super::ui::Role;
use crate::agent::schedule;
use crate::agent::schedule::GRANT_DUE_SOON_SECS;
use crate::agent::status::Status;
use crate::describe::{lists_action, lists_blocker, Action, Blocker, Condition};
use crate::lists;
use crate::text;
use vstd::prelude::*;
use vstd::string::*;

verus! {

/// A tip is 128 UTF-16 units *with* its terminator.
pub const TIP_MAX: usize = 127;

/// A deadline close enough to be worth saying.
pub open spec fn due_soon(deadline: Option<i64>, now: i64) -> bool {
    deadline matches Some(t) && t - now <= GRANT_DUE_SOON_SECS
}

/// The gates that keep an offer off the front page without taking it out of the
/// model.
pub open spec fn worth_the_front(st: Status, now: i64, act: Action) -> bool {
    match act {
        Action::RestartWorkstation => st.blockers@.contains(Blocker::NtlmFallback),
        Action::CreateGrant => (st.grant_target@.len() > 0 && !st.holds_grant) || due_soon(
            st.grant_expiry,
            now,
        ),
        Action::SignIn => st.condition != Condition::Working,
        Action::SignOutIdp => st.just_authorized,
        _ => true,
    }
}

/// Every action that can be on the front page, the primary one first.
pub open spec fn order() -> Seq<Action> {
    seq![
        Action::OpenSettings,
        Action::SignOutIdp,
        Action::Enroll,
        Action::RestartWorkstation,
        Action::CreateGrant,
        Action::ReinjectTicket,
        Action::SignIn,
        Action::DropKrbTicket,
    ]
}

/// What the front page offers.
pub open spec fn fronted(st: Status, now: i64) -> spec_fn(Action) -> bool {
    |act: Action| st.actions@.contains(act) && worth_the_front(st, now, act)
}

/// The offers of the front page, the primary one first.
pub open spec fn ranking(st: Status, now: i64) -> Seq<Action> {
    order().filter(fronted(st, now))
}

fn is_due_soon(deadline: Option<i64>, now: i64) -> (r: bool)
    requires
        schedule::clock(now),
    ensures
        r == due_soon(deadline, now),
{
    match deadline {
        Some(t) => t <= now + GRANT_DUE_SOON_SECS,
        None => false,
    }
}

fn fronts(st: &Status, now: i64, act: Action) -> (r: bool)
    requires
        schedule::clock(now),
    ensures
        r == fronted(*st, now)(act),
{
    lists_action(&st.actions, act) && match act {
        // The menu carries the hunch path; the front page offers it only where the
        // agent has diagnosed one.
        Action::RestartWorkstation => lists_blocker(&st.blockers, Blocker::NtlmFallback),
        Action::CreateGrant => (!st.grant_target.as_str().is_empty() && !st.holds_grant)
            || is_due_soon(st.grant_expiry, now),
        Action::SignIn => st.condition != Condition::Working,
        Action::SignOutIdp => st.just_authorized,
        _ => true,
    }
}

/// The surface's own ordering, and the only one in the product.
///
/// The offers are flat by construction, so this is where "what is primary" is
/// decided. `ReinjectTicket` outranks `SignIn` deliberately: wherever both are
/// ranked the cheap one is believed to work while the expensive one walks the
/// whole sign-in loop to the same ticket.
pub fn ranked(st: &Status, now: i64) -> (out: Vec<Action>)
    requires
        schedule::clock(now),
    ensures
        out@ == ranking(*st, now),
{
    let all: Vec<Action> = vec![
        Action::OpenSettings,
        Action::SignOutIdp,
        Action::Enroll,
        Action::RestartWorkstation,
        Action::CreateGrant,
        Action::ReinjectTicket,
        Action::SignIn,
        Action::DropKrbTicket,
    ];
    let ghost p = fronted(*st, now);
    let mut out: Vec<Action> = Vec::new();
    let mut i: usize = 0;
    proof {
        assert(all@.take(0) =~= Seq::empty());
        lists::filter_empty(p);
    }
    while i < all.len()
        invariant
            schedule::clock(now),
            i <= all@.len(),
            p == fronted(*st, now),
            out@ == all@.take(i as int).filter(p),
        decreases all@.len() - i,
    {
        let act = all[i];
        proof {
            assert(all@.take(i + 1) =~= all@.take(i as int).push(act));
            lists::filter_push(all@.take(i as int), act, p);
        }
        if fronts(st, now, act) {
            out.push(act);
        }
        i = i + 1;
    }
    assert(all@.take(i as int) =~= all@);
    assert(all@ =~= order());
    out
}

/// What the tip opens with: the app, and the headline where there is one.
pub open spec fn tip_head(app_name: Seq<char>, headline: Option<Seq<char>>) -> Seq<char> {
    match headline {
        Some(h) => app_name + " — "@ + h,
        None => app_name,
    }
}

/// The tip with the first `n` lines under it.
pub open spec fn tip_with(head: Seq<char>, lines: Seq<Seq<char>>, n: int) -> Seq<char>
    decreases n,
{
    if n <= 0 {
        head
    } else {
        tip_with(head, lines, n - 1) + seq!['\n'] + lines[n - 1]
    }
}

/// How long a text is in the units a tip is counted in.
pub open spec fn units(s: Seq<char>) -> nat {
    sys::utf16(s).len()
}

/// How many lines are taken, after the first `n` of them: one more as long as the
/// whole stays inside a tip.
pub open spec fn lines_taken(head: Seq<char>, lines: Seq<Seq<char>>, n: int) -> int
    decreases lines.len() - n,
{
    if n < 0 || n >= lines.len() || units(tip_with(head, lines, n + 1)) > TIP_MAX {
        n
    } else {
        lines_taken(head, lines, n + 1)
    }
}

/// The infotip: the app, the headline, then the blocker lines one at a time while
/// the whole stays inside a tip. Stops cleanly rather than truncating mid-word --
/// the flyout holds whatever did not fit, which is where a user looks anyway.
pub fn infotip(app_name: &str, headline: Option<&str>, lines: &Vec<String>) -> (tip: String)
    ensures
        ({
            let head = tip_head(app_name@, text::opt_str(headline));
            tip@ == tip_with(head, text::texts(lines@), lines_taken(head, text::texts(lines@), 0))
        }),
{
    let mut tip = app_name.to_owned();
    if let Some(h) = headline {
        tip.append(" — ");
        tip.append(h);
    }
    let ghost head = tip_head(app_name@, text::opt_str(headline));
    let ghost all = text::texts(lines@);
    proof {
        assert(tip@ =~= head);
        reveal_strlit("\n");
        assert("\n"@ =~= seq!['\n']);
    }
    let mut i: usize = 0;
    while i < lines.len()
        invariant
            all == text::texts(lines@),
            "\n"@ == seq!['\n'],
            i <= lines@.len(),
            tip@ == tip_with(head, all, i as int),
            lines_taken(head, all, 0) == lines_taken(head, all, i as int),
        ensures
            tip@ == tip_with(head, all, lines_taken(head, all, 0)),
        decreases lines@.len() - i,
    {
        let mut candidate = tip.clone();
        candidate.append("\n");
        candidate.append(lines[i].as_str());
        assert(all[i as int] == lines@[i as int]@);
        let length: usize = wide(candidate.as_str()).len() - 1;
        if length > TIP_MAX {
            break;
        }
        tip = candidate;
        i = i + 1;
    }
    tip
}

/// The headline's color.
pub open spec fn role_of(c: Condition) -> Role {
    match c {
        Condition::Working => Role::Good,
        Condition::Flaky => Role::Warn,
        Condition::WillStop => Role::Warn,
        Condition::Stopped => Role::Danger,
        Condition::NotStarted => Role::Sub,
    }
}

pub fn condition_role(c: Condition) -> (r: Role)
    ensures
        r == role_of(c),
{
    match c {
        Condition::Working => Role::Good,
        Condition::Flaky | Condition::WillStop => Role::Warn,
        Condition::Stopped => Role::Danger,
        Condition::NotStarted => Role::Sub,
    }
}

/// Nothing is missing but a supply.
pub open spec fn only_unsupplied(blockers: Seq<Blocker>) -> bool {
    forall|i: int| 0 <= i < blockers.len() ==> (#[trigger] blockers[i]) == Blocker::NoSupply
}

/// The severity of the explanation.
pub open spec fn rule_of(st: Status) -> Role {
    match st.condition {
        Condition::Stopped => Role::RuleDanger,
        Condition::NotStarted => Role::RuleSub,
        _ => if !st.fault && only_unsupplied(st.blockers@) {
            Role::RuleSub
        } else {
            Role::RuleWarn
        },
    }
}

fn are_only_unsupplied(blockers: &Vec<Blocker>) -> (r: bool)
    ensures
        r == only_unsupplied(blockers@),
{
    let mut i: usize = 0;
    while i < blockers.len()
        invariant
            i <= blockers@.len(),
            forall|k: int| 0 <= k < i ==> (#[trigger] blockers@[k]) == Blocker::NoSupply,
        decreases blockers@.len() - i,
    {
        if blockers[i] != Blocker::NoSupply {
            return false;
        }
        i = i + 1;
    }
    true
}

/// The explanation rule carries the severity, so the lines inside it do not.
/// Danger once access has stopped, neutral on a machine that has never worked,
/// warn otherwise -- and neutral for a message with no fault behind it, so a
/// deliberate sign-off is not dressed as a breakage.
pub fn rule_role(st: &Status) -> (r: Role)
    ensures
        r == rule_of(*st),
{
    match st.condition {
        Condition::Stopped => Role::RuleDanger,
        Condition::NotStarted => Role::RuleSub,
        _ => if !st.fault && are_only_unsupplied(&st.blockers) {
            Role::RuleSub
        } else {
            Role::RuleWarn
        },
    }
}

// ------------------------------------------------------------------------ laws

/// The front page offers nothing that is not on offer, each of it once, and the
/// restart only where the agent has diagnosed that one is needed.
pub proof fn law_the_front_page_offers_what_is_on_offer(st: Status, now: i64, act: Action)
    ensures
        ranking(st, now).contains(act) <==> order().contains(act) && st.actions@.contains(act)
            && worth_the_front(st, now, act),
        ranking(st, now).no_duplicates(),
        ranking(st, now).contains(Action::RestartWorkstation) ==> st.blockers@.contains(
            Blocker::NtlmFallback,
        ),
        ranking(st, now).contains(Action::SignOutIdp) ==> st.just_authorized,
{
    lists::filter_holds(order(), fronted(st, now), act);
    lists::filter_holds(order(), fronted(st, now), Action::RestartWorkstation);
    lists::filter_holds(order(), fronted(st, now), Action::SignOutIdp);
    assert(order().no_duplicates());
    lists::filter_distinct(order(), fronted(st, now));
}

/// Where an action of the front page stands among them follows the order alone:
/// what outranks another there outranks it wherever both are offered.
pub proof fn law_a_silent_renewal_outranks_a_sign_in(st: Status, now: i64, i: int, j: int)
    requires
        0 <= i < ranking(st, now).len(),
        0 <= j < ranking(st, now).len(),
        ranking(st, now)[i] == Action::ReinjectTicket,
        ranking(st, now)[j] == Action::SignIn,
    ensures
        i < j,
{
    let p = fronted(st, now);
    let early = order().take(6);
    let late = order().skip(6);
    assert(order() =~= early + late);
    Seq::filter_distributes_over_add(early, late, p);
    lists::filter_holds(early, p, Action::SignIn);
    lists::filter_holds(late, p, Action::ReinjectTicket);
    let a = early.filter(p);
    let b = late.filter(p);
    assert(ranking(st, now) == a + b);
    assert(i < a.len()) by {
        if i >= a.len() {
            assert((a + b)[i] == b[i - a.len()]);
            assert(b.contains(Action::ReinjectTicket));
        }
    }
    assert(j >= a.len()) by {
        if j < a.len() {
            assert((a + b)[j] == a[j]);
            assert(a.contains(Action::SignIn));
        }
    }
}

/// A tip never grows past what a tray icon holds, and every line in it is whole:
/// it is the head and the first lines.
pub proof fn law_a_tip_holds_whole_lines(head: Seq<char>, lines: Seq<Seq<char>>, n: int)
    requires
        0 <= n <= lines.len(),
        units(tip_with(head, lines, n)) <= TIP_MAX,
    ensures
        n <= lines_taken(head, lines, n) <= lines.len(),
        units(tip_with(head, lines, lines_taken(head, lines, n))) <= TIP_MAX,
        lines_taken(head, lines, n) < lines.len() ==> units(
            tip_with(head, lines, lines_taken(head, lines, n) + 1),
        ) > TIP_MAX,
    decreases lines.len() - n,
{
    if n < lines.len() && units(tip_with(head, lines, n + 1)) <= TIP_MAX {
        law_a_tip_holds_whole_lines(head, lines, n + 1);
    }
}

/// When an operation is worth the front page: a restart in an episode; an authorization that
/// is owed or due within a week; a sign-in while things do not work; a logout right after an
/// authorization; and everything else whenever it is on offer.
pub proof fn law_when_an_operation_is_worth_the_front(st: Status, now: i64, act: Action)
    ensures
        act == Action::RestartWorkstation ==> (worth_the_front(st, now, act)
            <==> st.blockers@.contains(Blocker::NtlmFallback)),
        act == Action::CreateGrant && st.grant_expiry is None ==> (worth_the_front(st, now, act)
            <==> st.grant_target@.len() > 0 && !st.holds_grant),
        act == Action::CreateGrant ==> (st.grant_expiry matches Some(t) ==> (worth_the_front(
            st,
            now,
            act,
        ) <==> (st.grant_target@.len() > 0 && !st.holds_grant) || t <= now + 7 * 24 * 60 * 60)),
        act == Action::SignIn ==> (worth_the_front(st, now, act) <==> st.condition
            != Condition::Working),
        act == Action::SignOutIdp ==> (worth_the_front(st, now, act) <==> st.just_authorized),
        act != Action::RestartWorkstation && act != Action::CreateGrant && act != Action::SignIn
            && act != Action::SignOutIdp ==> worth_the_front(st, now, act),
{
}

/// How far to the front an operation stands.
pub open spec fn front_rank(act: Action) -> int {
    match act {
        Action::OpenSettings => 0,
        Action::SignOutIdp => 1,
        Action::Enroll => 2,
        Action::RestartWorkstation => 3,
        Action::CreateGrant => 4,
        Action::ReinjectTicket => 5,
        Action::SignIn => 6,
        Action::DropKrbTicket => 7,
        _ => 8,
    }
}

/// Whatever is fronted stands in one order, and only these eight are ever fronted.
pub proof fn law_the_front_page_has_one_order(st: Status, now: i64, i: int, j: int)
    requires
        0 <= i < j < ranking(st, now).len(),
    ensures
        front_rank(ranking(st, now)[i]) < front_rank(ranking(st, now)[j]) < 8,
{
    let o = order();
    assert(o.len() == 8);
    assert(forall|a: int| 0 <= a < o.len() ==> front_rank(#[trigger] o[a]) == a);
    let rank = |act: Action| front_rank(act);
    lists::filter_keeps_order(o, fronted(st, now), rank, i, j);
    let x = ranking(st, now)[j];
    lists::filter_holds(o, fronted(st, now), x);
    let k = choose|k: int| 0 <= k < o.len() && o[k] == x;
    assert(front_rank(o[k]) == k);
}

/// The colour of a headline and of the rule beside an explanation say how bad it is.
pub proof fn law_colours_say_how_bad_it_is(st: Status)
    ensures
        role_of(st.condition) == Role::Good <==> st.condition == Condition::Working,
        role_of(st.condition) == Role::Warn <==> st.condition == Condition::Flaky || st.condition
            == Condition::WillStop,
        role_of(st.condition) == Role::Danger <==> st.condition == Condition::Stopped,
        role_of(st.condition) == Role::Sub <==> st.condition == Condition::NotStarted,
        rule_of(st) == Role::RuleDanger <==> st.condition == Condition::Stopped,
        rule_of(st) == Role::RuleWarn <==> st.condition != Condition::Stopped && st.condition
            != Condition::NotStarted && (st.fault || exists|i: int|
            0 <= i < st.blockers@.len() && #[trigger] st.blockers@[i] != Blocker::NoSupply),
        rule_of(st) == Role::RuleSub || rule_of(st) == Role::RuleDanger || rule_of(st)
            == Role::RuleWarn,
{
}

/// A tip names the program, and behind a dash how things are; below it stand as many of the
/// lines as fit into 127 units, each on its own.
pub proof fn law_what_a_tip_says(name: Seq<char>, h: Seq<char>, lines: Seq<Seq<char>>, n: int)
    ensures
        tip_head(name, Some(h)) == name + " — "@ + h,
        tip_head(name, None) == name,
        tip_with(h, lines, 0) == h,
        0 < n <= lines.len() ==> tip_with(h, lines, n) == tip_with(h, lines, n - 1) + seq!['\n']
            + lines[n - 1],
        0 <= n < lines.len() && units(tip_with(h, lines, n + 1)) <= 127 ==> lines_taken(h, lines, n)
            == lines_taken(h, lines, n + 1),
        0 <= n < lines.len() && units(tip_with(h, lines, n + 1)) > 127 ==> lines_taken(h, lines, n)
            == n,
{
}

} // verus!
