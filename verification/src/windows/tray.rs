//! The notification-area icon: what its clicks mean, its context menu, its balloon
//! notifications, and what the one-second tick repaints.

use super::sys;
use super::sys::{loword, wide};
use crate::agent::status::Status;
use crate::agent::Severity;
use crate::describe::{lists_action, Action, Condition};
use crate::lists;
use crate::sentence::Phrase;
use crate::{help_url_for, HELP_URL};
use vstd::prelude::*;
use vstd::string::*;

verus! {

// Menu command ids.
pub const MENU_OPEN_STATUS: usize = 200;

pub const MENU_SETTINGS: usize = 201;

pub const MENU_HELP: usize = 202;

pub const MENU_QUIT: usize = 203;

/// Actions occupy `MENU_ACTION_BASE` and what follows it.
pub const MENU_ACTION_BASE: usize = 210;

/// Quiet time is respected on every balloon: none of these is urgent enough to talk
/// over a presentation.
pub const QUIET: u32 = 0x0080;

/// A balloon without an icon.
pub const ICON_NONE: u32 = 0x0000;

pub const ICON_WARNING: u32 = 0x0002;

pub const ICON_ERROR: u32 = 0x0003;

const WM_LBUTTONUP: u32 = 0x0202;

const WM_RBUTTONUP: u32 = 0x0205;

const WM_CONTEXTMENU: u32 = 0x007b;

/// A click on the balloon itself.
const NIN_BALLOONUSERCLICK: u32 = 0x0405;

/// What a click on the icon asks for.
#[derive(Clone, Copy, PartialEq, Eq, Debug, Structural)]
pub enum Click {
    Toggle,
    Menu,
    /// A click on a toast always opens, and never toggles.
    Show,
    Nothing,
}

/// What the icon's callback carries, in its low word.
pub fn on_click(param: usize) -> (r: Click)
    ensures
        r == click_of(param as int),
{
    match loword(param) {
        WM_LBUTTONUP => Click::Toggle,
        WM_RBUTTONUP | WM_CONTEXTMENU => Click::Menu,
        NIN_BALLOONUSERCLICK => Click::Show,
        _ => Click::Nothing,
    }
}

/// Posted to the hidden window by the tray icon.
pub const WM_TRAY: u32 = 0x0401;

/// Posted by a worker that has queued an event.
pub const WM_AGENT: u32 = 0x0402;

/// Posted by a second instance to bring this one's flyout up.
pub const WM_SHOW_FLYOUT: u32 = 0x0403;

const WM_DESTROY: u32 = 0x0002;

const WM_ENDSESSION: u32 = 0x0016;

const WM_SETTINGCHANGE: u32 = 0x001a;

const WM_TIMER: u32 = 0x0113;

const WM_DPICHANGED: u32 = 0x02e0;

/// What a message to the hidden window asks for.
#[derive(Clone, Copy, PartialEq, Eq, Debug, Structural)]
pub enum Signal {
    /// The shell came back: every icon must be added again.
    AddIcon,
    Clicked(Click),
    ShowFlyout,
    /// Apply what the workers queued.
    Drain,
    /// The one-second heartbeat.
    Tick,
    /// Look at the theme again, and let the system have the message too.
    Retheme,
    /// Draw the icon again, at the new scale.
    Redraw,
    /// The session is ending: leave by the ordinary path, which removes the icon.
    Leave,
    Quit,
    /// The system's own business.
    Default,
}

/// What a click on the icon means.
pub open spec fn click_of(param: int) -> Click {
    let what = param % 0x1_0000;
    if what == 0x0202 {
        Click::Toggle
    } else if what == 0x0205 || what == 0x007b {
        Click::Menu
    } else if what == 0x0405 {
        Click::Show
    } else {
        Click::Nothing
    }
}

/// What a message means. `taskbar_created` is the id under which the shell announces
/// that it restarted, which is assigned at run time, and 0 where it is not known.
pub open spec fn signal_of(msg: u32, wparam: usize, lparam: usize, taskbar_created: u32) -> Signal {
    if msg != 0 && msg == taskbar_created {
        Signal::AddIcon
    } else if msg == 0x0401 {
        Signal::Clicked(click_of(lparam as int))
    } else if msg == 0x0403 {
        Signal::ShowFlyout
    } else if msg == 0x0402 {
        Signal::Drain
    } else if msg == 0x0113 {
        Signal::Tick
    } else if msg == 0x001a {
        Signal::Retheme
    } else if msg == 0x02e0 {
        Signal::Redraw
    } else if msg == 0x0016 && wparam != 0 {
        Signal::Leave
    } else if msg == 0x0002 {
        Signal::Quit
    } else {
        Signal::Default
    }
}

pub fn on_message(msg: u32, wparam: usize, lparam: usize, taskbar_created: u32) -> (r: Signal)
    ensures
        r == signal_of(msg, wparam, lparam, taskbar_created),
{
    if msg != 0 && msg == taskbar_created {
        return Signal::AddIcon;
    }
    match msg {
        WM_TRAY => Signal::Clicked(on_click(lparam)),
        WM_SHOW_FLYOUT => Signal::ShowFlyout,
        WM_AGENT => Signal::Drain,
        WM_TIMER => Signal::Tick,
        WM_SETTINGCHANGE => Signal::Retheme,
        WM_DPICHANGED => Signal::Redraw,
        WM_ENDSESSION => if wparam != 0 {
            Signal::Leave
        } else {
            Signal::Default
        },
        WM_DESTROY => Signal::Quit,
        _ => Signal::Default,
    }
}

// --------------------------------------------------------------------- the menu

/// An entry of the menu.
#[derive(Clone, Copy, PartialEq, Eq, Debug, Structural)]
pub enum Item {
    Separator,
    Entry { label: Phrase, id: usize },
    Offer { act: Action, id: usize },
}

/// What a machine is asked to do about its ticket.
pub open spec fn ticket_group() -> Seq<Action> {
    seq![
        Action::CreateGrant,
        Action::ReinjectTicket,
        Action::SignIn,
        Action::DropKrbTicket,
        Action::SignOutIdp,
    ]
}

/// The two shielded ones, and the repair unconditionally: broken drives are what
/// someone reaches for this with, and the agent only sometimes knows why.
pub open spec fn machine_group() -> Seq<Action> {
    seq![Action::Enroll, Action::RestartWorkstation]
}

/// What is on offer.
pub open spec fn offered(st: Status) -> spec_fn(Action) -> bool {
    |act: Action| st.actions@.contains(act)
}

/// The actions of the menu, in order.
pub open spec fn menu_actions(st: Status) -> Seq<Action> {
    ticket_group().filter(offered(st)) + machine_group().filter(offered(st))
}

/// A group of the menu, with `base` actions before it. A group with nothing in it
/// has no separator either.
pub open spec fn group_items(acts: Seq<Action>, base: int) -> Seq<Item> {
    if acts.len() == 0 {
        seq![]
    } else {
        seq![Item::Separator] + offers(acts, base)
    }
}

/// An entry for each action.
pub open spec fn offers(acts: Seq<Action>, base: int) -> Seq<Item> {
    Seq::new(
        acts.len(),
        |i: int| Item::Offer { act: acts[i], id: (MENU_ACTION_BASE + base + i) as usize },
    )
}

/// The whole menu. "Open status" comes first -- a discoverable path for anyone who
/// misses left-click.
pub open spec fn menu_of(st: Status) -> Seq<Item> {
    let ticket = ticket_group().filter(offered(st));
    let machine = machine_group().filter(offered(st));
    seq![Item::Entry { label: Phrase::MenuOpenStatus, id: MENU_OPEN_STATUS }] + group_items(
        ticket,
        0,
    ) + group_items(machine, ticket.len() as int) + seq![
        Item::Separator,
        Item::Entry { label: Phrase::MenuSettings, id: MENU_SETTINGS },
        Item::Entry { label: Phrase::MenuHelp, id: MENU_HELP },
        Item::Separator,
        Item::Entry { label: Phrase::MenuQuit, id: MENU_QUIT },
    ]
}

fn put_group(items: &mut Vec<Item>, acts: &mut Vec<Action>, group: &Vec<Action>, st: &Status)
    requires
        group@.len() <= 8,
        old(acts)@.len() <= 8,
    ensures
        ({
            let picked = group@.filter(offered(*st));
            &&& final(acts)@ == old(acts)@ + picked
            &&& final(items)@ == old(items)@ + group_items(picked, old(acts)@.len() as int)
            &&& picked.len() <= group@.len()
        }),
{
    let ghost p = offered(*st);
    let ghost base = acts@.len() as int;
    let ghost acts_before = acts@;
    let ghost items_before = items@;
    let mut any = false;
    let mut i: usize = 0;
    proof {
        assert(group@.take(0) =~= Seq::empty());
        lists::filter_empty(p);
        assert(items@ =~= items_before + group_items(Seq::empty(), base));
        assert(acts@ =~= acts_before + Seq::empty());
    }
    while i < group.len()
        invariant
            i <= group@.len() <= 8,
            p == offered(*st),
            base == acts_before.len() <= 8,
            acts@ == acts_before + group@.take(i as int).filter(p),
            items@ == items_before + group_items(group@.take(i as int).filter(p), base),
            any == (group@.take(i as int).filter(p).len() > 0),
            group@.take(i as int).filter(p).len() <= i,
        decreases group@.len() - i,
    {
        let act = group[i];
        let ghost before = group@.take(i as int).filter(p);
        let ghost items_now = items@;
        proof {
            assert(group@.take(i + 1) =~= group@.take(i as int).push(act));
            lists::filter_push(group@.take(i as int), act, p);
        }
        if lists_action(&st.actions, act) {
            if !any {
                items.push(Item::Separator);
                any = true;
            }
            let id: usize = MENU_ACTION_BASE + acts.len();
            items.push(Item::Offer { act, id });
            acts.push(act);
            proof {
                let after = before.push(act);
                assert(acts@ =~= acts_before + after);
                assert(offers(after, base) =~= offers(before, base).push(Item::Offer { act, id }));
                assert(items@ =~= items_before + group_items(after, base));
            }
        }
        i = i + 1;
    }
    assert(group@.take(i as int) =~= group@);
}

/// The context menu: its entries, and the actions behind those that are one.
///
/// It is the flyout's superset: width is free here and rarity is not a cost, so
/// everything the front page had to gate away still has one home.
pub fn menu(st: &Status) -> (r: (Vec<Item>, Vec<Action>))
    ensures
        r.0@ == menu_of(*st),
        r.1@ == menu_actions(*st),
{
    let mut items: Vec<Item> = Vec::new();
    let mut acts: Vec<Action> = Vec::new();
    items.push(Item::Entry { label: Phrase::MenuOpenStatus, id: MENU_OPEN_STATUS });
    let ticket: Vec<Action> = vec![
        Action::CreateGrant,
        Action::ReinjectTicket,
        Action::SignIn,
        Action::DropKrbTicket,
        Action::SignOutIdp,
    ];
    let machine: Vec<Action> = vec![Action::Enroll, Action::RestartWorkstation];
    assert(ticket@ =~= ticket_group());
    assert(machine@ =~= machine_group());
    put_group(&mut items, &mut acts, &ticket, st);
    put_group(&mut items, &mut acts, &machine, st);
    items.push(Item::Separator);
    items.push(Item::Entry { label: Phrase::MenuSettings, id: MENU_SETTINGS });
    items.push(Item::Entry { label: Phrase::MenuHelp, id: MENU_HELP });
    items.push(Item::Separator);
    items.push(Item::Entry { label: Phrase::MenuQuit, id: MENU_QUIT });
    assert(items@ =~= menu_of(*st));
    assert(acts@ =~= menu_actions(*st));
    (items, acts)
}

/// What a choice in the menu asks for.
#[derive(Clone, Copy, PartialEq, Eq, Debug, Structural)]
pub enum Choice {
    OpenStatus,
    OpenSettings,
    OpenHelp,
    Quit,
    Start(Action),
    Nothing,
}

/// What a menu id stands for, given the actions of the menu.
pub open spec fn choice_of(id: usize, acts: Seq<Action>) -> Choice {
    if id == MENU_OPEN_STATUS {
        Choice::OpenStatus
    } else if id == MENU_SETTINGS {
        Choice::OpenSettings
    } else if id == MENU_HELP {
        Choice::OpenHelp
    } else if id == MENU_QUIT {
        Choice::Quit
    } else if MENU_ACTION_BASE <= id < MENU_ACTION_BASE + acts.len() {
        Choice::Start(acts[id - MENU_ACTION_BASE])
    } else {
        Choice::Nothing
    }
}

pub fn chosen(id: usize, acts: &Vec<Action>) -> (r: Choice)
    ensures
        r == choice_of(id, acts@),
{
    match id {
        MENU_OPEN_STATUS => Choice::OpenStatus,
        MENU_SETTINGS => Choice::OpenSettings,
        MENU_HELP => Choice::OpenHelp,
        MENU_QUIT => Choice::Quit,
        _ => if id >= MENU_ACTION_BASE && id - MENU_ACTION_BASE < acts.len() {
            Choice::Start(acts[id - MENU_ACTION_BASE])
        } else {
            Choice::Nothing
        },
    }
}

/// The page that *Help* opens: the deployment's own where it publishes one.
pub fn help_page(st: &Status, lang: &str) -> (r: String)
    ensures
        r@ == crate::help_address(
            if st.help_url@.len() == 0 {
                HELP_URL@
            } else {
                st.help_url@
            },
            "win"@,
            lang@,
        ),
{
    if st.help_url.as_str().is_empty() {
        help_url_for(HELP_URL, "win", lang)
    } else {
        help_url_for(st.help_url.as_str(), "win", lang)
    }
}

// -------------------------------------------------------------------- the balloon

/// How loud a balloon is.
pub open spec fn balloon_of(severity: Severity) -> u32 {
    match severity {
        Severity::Info => QUIET | ICON_NONE,
        Severity::Warning => QUIET | ICON_WARNING,
        Severity::Error => QUIET | ICON_ERROR,
    }
}

/// A balloon's flags. Severity follows the condition it announces.
pub fn balloon_flags(severity: Severity) -> (r: u32)
    ensures
        r == balloon_of(severity),
{
    QUIET | match severity {
        Severity::Info => ICON_NONE,
        Severity::Warning => ICON_WARNING,
        Severity::Error => ICON_ERROR,
    }
}

/// A string as it stands in a field of fixed size: as much as fits, and terminated.
pub open spec fn fixed_field(was: Seq<u16>, s: Seq<char>) -> Seq<u16> {
    let w = sys::utf16(s).push(0);
    let n = if w.len() < was.len() {
        w.len()
    } else {
        was.len()
    };
    Seq::new(
        was.len(),
        |i: int|
            if i == n - 1 {
                0
            } else if i < n {
                w[i]
            } else {
                was[i]
            },
    )
}

/// Copy a string into a field of fixed size, terminated and truncated.
pub fn copy_into(dst: &mut Vec<u16>, src: &str)
    ensures
        final(dst)@ == fixed_field(old(dst)@, src@),
{
    let w = wide(src);
    let ghost was = dst@;
    let n: usize = if w.len() < dst.len() {
        w.len()
    } else {
        dst.len()
    };
    let mut i: usize = 0;
    while i < n
        invariant
            i <= n <= w@.len(),
            n <= dst@.len() == was.len(),
            forall|k: int|
                0 <= k < dst@.len() ==> #[trigger] dst@[k] == (if k < i {
                    w@[k]
                } else {
                    was[k]
                }),
        decreases n - i,
    {
        dst.set(i, w[i]);
        i = i + 1;
    }
    if n > 0 {
        dst.set(n - 1, 0);
    }
    assert(dst@ =~= fixed_field(was, src@));
}

// ----------------------------------------------------------------------- the tick

/// What is on screen, so that the tick repaints only what would actually change.
#[derive(Clone, Copy, PartialEq, Eq, Debug, Structural)]
pub struct Shown {
    /// The condition on the icon.
    pub condition: Option<Condition>,
    /// The whole minute of ticket life in the flyout.
    pub minute: i64,
}

/// The whole minutes that a status shows, and `-1` without a ticket.
pub open spec fn minute_of(st: Status) -> int {
    match st.ticket {
        Some(t) => t.remaining as int / 60,
        None => -1,
    }
}

/// What a tick repaints.
#[derive(Clone, Copy, PartialEq, Eq, Debug, Structural)]
pub struct Repaint {
    pub icon: bool,
    pub flyout: bool,
}

impl Shown {
    pub fn new() -> (r: Self)
        ensures
            r == (Shown { condition: None, minute: i64::MIN }),
    {
        Shown { condition: None, minute: i64::MIN }
    }

    /// One second of housekeeping, after the agent ran its schedule: repaint only
    /// what has actually changed -- the icon on a condition change, the flyout on
    /// either that or the countdown ticking over a minute.
    pub fn tick(&mut self, st: &Status, scheduled: bool, flyout_visible: bool) -> (r: Repaint)
        requires
            st.ticket matches Some(t) ==> t.remaining >= 0,
        ensures
            *final(self) == (Shown {
                condition: Some(st.condition),
                minute: minute_of(*st) as i64,
            }),
            r.icon == (scheduled || old(self).condition != Some(st.condition)),
            r.flyout == (flyout_visible && (r.icon || old(self).minute != minute_of(*st))),
    {
        let condition_changed = match self.condition {
            Some(c) => c != st.condition,
            None => true,
        };
        let minute: i64 = match &st.ticket {
            Some(t) => t.remaining / 60,
            None => -1,
        };
        let minute_changed = self.minute != minute;
        self.condition = Some(st.condition);
        self.minute = minute;
        let icon = scheduled || condition_changed;
        Repaint { icon, flyout: flyout_visible && (icon || minute_changed) }
    }
}

// ------------------------------------------------------------------------ laws

/// A menu entry starts the action it is labelled with: its id stands for that action
/// and no other, and everything it names is on offer.
pub proof fn law_an_entry_starts_its_action(st: Status, i: int)
    requires
        0 <= i < menu_actions(st).len(),
    ensures
        menu_of(st).contains(
            Item::Offer { act: menu_actions(st)[i], id: (MENU_ACTION_BASE + i) as usize },
        ),
        choice_of((MENU_ACTION_BASE + i) as usize, menu_actions(st)) == Choice::Start(
            menu_actions(st)[i],
        ),
        st.actions@.contains(menu_actions(st)[i]),
{
    let p = offered(st);
    let ticket = ticket_group().filter(p);
    let machine = machine_group().filter(p);
    ticket_group().lemma_filter_len(p);
    machine_group().lemma_filter_len(p);
    let act = menu_actions(st)[i];
    let item = Item::Offer { act, id: (MENU_ACTION_BASE + i) as usize };
    if i < ticket.len() {
        assert(ticket.contains(act));
        lists::filter_holds(ticket_group(), p, act);
        assert(offers(ticket, 0)[i] == item);
        assert(menu_of(st)[i + 2] == item);
    } else {
        let j = i - ticket.len();
        assert(act == machine[j]);
        assert(machine.contains(act));
        lists::filter_holds(machine_group(), p, act);
        assert(offers(machine, ticket.len() as int)[j] == item);
        let before = 1 + group_items(ticket, 0).len();
        assert(menu_of(st)[before + 1 + j] == item);
    }
}

/// Everything the flyout offers on its front page is in the menu, but for what opens
/// Settings, which is an entry of its own.
pub proof fn law_the_menu_is_the_flyouts_superset(st: Status, now: i64, act: Action)
    requires
        super::present::ranking(st, now).contains(act),
    ensures
        act is OpenSettings || menu_actions(st).contains(act),
{
    super::present::law_the_front_page_offers_what_is_on_offer(st, now, act);
    let p = offered(st);
    let ticket = ticket_group().filter(p);
    let machine = machine_group().filter(p);
    lists::filter_holds(ticket_group(), p, act);
    lists::filter_holds(machine_group(), p, act);
    assert(ticket_group()[0] == Action::CreateGrant);
    assert(ticket_group()[1] == Action::ReinjectTicket);
    assert(ticket_group()[2] == Action::SignIn);
    assert(ticket_group()[3] == Action::DropKrbTicket);
    assert(ticket_group()[4] == Action::SignOutIdp);
    assert(machine_group()[0] == Action::Enroll);
    assert(machine_group()[1] == Action::RestartWorkstation);
    if ticket.contains(act) {
        let k = choose|k: int| 0 <= k < ticket.len() && ticket[k] == act;
        assert(menu_actions(st)[k] == act);
    }
    if machine.contains(act) {
        let k = choose|k: int| 0 <= k < machine.len() && machine[k] == act;
        assert(menu_actions(st)[ticket.len() + k] == act);
    }
}

/// A field of fixed size is always terminated.
pub proof fn law_a_field_is_terminated(was: Seq<u16>, s: Seq<char>)
    requires
        was.len() > 0,
    ensures
        fixed_field(was, s).len() == was.len(),
        fixed_field(was, s).contains(0),
{
    let w = sys::utf16(s).push(0);
    let n = if w.len() < was.len() {
        w.len()
    } else {
        was.len()
    };
    assert(fixed_field(was, s)[n - 1] == 0);
}

/// What the icon's clicks mean: the left button toggles, the right one and the menu key open
/// the menu, and a click on a toast shows; the rest means nothing.
pub proof fn law_what_a_click_means(param: int)
    ensures
        ({
            let low = param % 65_536;
            &&& click_of(param) == Click::Toggle <==> low == 0x0202
            &&& click_of(param) == Click::Menu <==> low == 0x0205 || low == 0x007b
            &&& click_of(param) == Click::Show <==> low == 0x0405
        }),
{
}

/// What a message means: a shell that came back is told first, whatever number it was given;
/// ending the session counts only where it does end.
pub proof fn law_what_a_message_means(msg: u32, wparam: usize, lparam: usize, created: u32)
    ensures
        ({
            let s = signal_of(msg, wparam, lparam, created);
            let back = msg != 0 && msg == created;
            &&& s == Signal::AddIcon <==> back
            &&& !back ==> (s is Clicked <==> msg == 0x0401)
            &&& s matches Signal::Clicked(c) ==> c == click_of(lparam as int)
            &&& !back ==> (s == Signal::ShowFlyout <==> msg == 0x0403)
            &&& !back ==> (s == Signal::Drain <==> msg == 0x0402)
            &&& !back ==> (s == Signal::Tick <==> msg == 0x0113)
            &&& !back ==> (s == Signal::Retheme <==> msg == 0x001a)
            &&& !back ==> (s == Signal::Redraw <==> msg == 0x02e0)
            &&& !back ==> (s == Signal::Leave <==> msg == 0x0016 && wparam != 0)
            &&& !back ==> (s == Signal::Quit <==> msg == 0x0002)
        }),
{
}

/// Where an operation stands in the menu: those about the ticket first, in one order, then
/// those about the machine.
pub open spec fn menu_rank(act: Action) -> int {
    match act {
        Action::CreateGrant => 0,
        Action::ReinjectTicket => 1,
        Action::SignIn => 2,
        Action::DropKrbTicket => 3,
        Action::SignOutIdp => 4,
        Action::Enroll => 5,
        Action::RestartWorkstation => 6,
        _ => 7,
    }
}

/// The menu offers exactly what is on offer among its seven operations.
pub proof fn law_the_menu_offers_what_is_on_offer(st: Status, act: Action)
    ensures
        menu_actions(st).contains(act) <==> menu_rank(act) < 7 && st.actions@.contains(act),
{
    let t = ticket_group();
    let m = machine_group();
    let a = t.filter(offered(st));
    let b = m.filter(offered(st));
    lists::filter_holds(t, offered(st), act);
    lists::filter_holds(m, offered(st), act);
    assert(t[0] == Action::CreateGrant && t[1] == Action::ReinjectTicket && t[2] == Action::SignIn
        && t[3] == Action::DropKrbTicket && t[4] == Action::SignOutIdp);
    assert(m[0] == Action::Enroll && m[1] == Action::RestartWorkstation);
    if a.contains(act) {
        let i = choose|i: int| 0 <= i < a.len() && a[i] == act;
        assert((a + b)[i] == act);
    }
    if b.contains(act) {
        let i = choose|i: int| 0 <= i < b.len() && b[i] == act;
        assert((a + b)[a.len() + i] == act);
    }
    if (a + b).contains(act) {
        let i = choose|i: int| 0 <= i < (a + b).len() && (a + b)[i] == act;
        if i < a.len() {
            assert(a[i] == act);
        } else {
            assert(b[i - a.len()] == act);
        }
    }
}

/// Whatever the menu offers stands in that order.
pub proof fn law_the_menu_has_one_order(st: Status, i: int, j: int)
    requires
        0 <= i < j < menu_actions(st).len(),
    ensures
        menu_rank(menu_actions(st)[i]) < menu_rank(menu_actions(st)[j]),
{
    let t = ticket_group();
    let m = machine_group();
    let a = t.filter(offered(st));
    let b = m.filter(offered(st));
    let rank = |act: Action| menu_rank(act);
    assert(forall|k: int| 0 <= k < t.len() ==> menu_rank(#[trigger] t[k]) == k);
    assert(forall|k: int| 0 <= k < m.len() ==> menu_rank(#[trigger] m[k]) == k + 5);
    if j < a.len() {
        lists::filter_keeps_order(t, offered(st), rank, i, j);
    } else if i >= a.len() {
        lists::filter_keeps_order(m, offered(st), rank, i - a.len(), j - a.len());
    } else {
        let (x, y) = (a[i], b[j - a.len()]);
        lists::filter_holds(t, offered(st), x);
        lists::filter_holds(m, offered(st), y);
        let p = choose|p: int| 0 <= p < t.len() && t[p] == x;
        let q = choose|q: int| 0 <= q < m.len() && m[q] == y;
        assert(menu_rank(t[p]) == p);
        assert(menu_rank(m[q]) == q + 5);
    }
}

/// What stands in the menu besides: the status first, and at the end the settings, the help
/// and the way out, each under the number that its choice is known by.
pub proof fn law_what_stands_in_the_menu(st: Status)
    ensures
        ({
            let m = menu_of(st);
            let n = m.len();
            &&& m[0] == (Item::Entry { label: Phrase::MenuOpenStatus, id: 200 })
            &&& m[n - 5] == Item::Separator
            &&& m[n - 4] == (Item::Entry { label: Phrase::MenuSettings, id: 201 })
            &&& m[n - 3] == (Item::Entry { label: Phrase::MenuHelp, id: 202 })
            &&& m[n - 2] == Item::Separator
            &&& m[n - 1] == (Item::Entry { label: Phrase::MenuQuit, id: 203 })
            &&& n >= 6
        }),
        choice_of(200, menu_actions(st)) == Choice::OpenStatus,
        choice_of(201, menu_actions(st)) == Choice::OpenSettings,
        choice_of(202, menu_actions(st)) == Choice::OpenHelp,
        choice_of(203, menu_actions(st)) == Choice::Quit,
        forall|id: usize|
            (id < 200 || 203 < id < 210 || id >= 210 + menu_actions(st).len()) ==> #[trigger]
            choice_of(id, menu_actions(st)) == Choice::Nothing,
{
}

/// Every toast is quiet, and shows how bad it is.
pub proof fn law_a_toast_is_quiet()
    ensures
        balloon_of(Severity::Info) == 0x80,
        balloon_of(Severity::Warning) == 0x82,
        balloon_of(Severity::Error) == 0x83,
{
    assert(0x80u32 | 0x00u32 == 0x80u32) by (bit_vector);
    assert(0x80u32 | 0x02u32 == 0x82u32) by (bit_vector);
    assert(0x80u32 | 0x03u32 == 0x83u32) by (bit_vector);
}

/// A field holds as much of a text as fits ahead of the mark that ends it.
pub proof fn law_a_field_holds_the_text(was: Seq<u16>, s: Seq<char>, i: int)
    requires
        was.len() > 0,
        0 <= i < was.len(),
    ensures
        ({
            let w = sys::utf16(s);
            let f = fixed_field(was, s);
            &&& i < w.len() && i < was.len() - 1 ==> f[i] == w[i]
            &&& w.len() < was.len() ==> f[w.len() as int] == 0
            &&& w.len() >= was.len() ==> f.last() == 0
            &&& i > w.len() ==> f[i] == was[i]
        }),
{
}

/// The icon is drawn again when another minute is left, and a machine without a ticket is
/// not one with a minute left.
pub proof fn law_a_minute_is_sixty_seconds(a: Status, b: Status)
    ensures
        a.ticket is None ==> minute_of(a) == -1,
        a.ticket matches Some(t) ==> (t.remaining >= 0 ==> minute_of(a) >= 0 && minute_of(a) * 60
            <= t.remaining < minute_of(a) * 60 + 60),
{
}

} // verus!
