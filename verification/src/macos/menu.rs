//! The menu, which on this platform is also the status window.
//!
//! **[`outline`] is a function of the status, [`plan`] of the outline and its words,
//! and the menu of the plan.** That is what makes "has anything changed?" a comparison
//! rather than a guess. The menu is rebuilt from a plan, never mutated in place: a
//! menu is small, and a function of the state is one fewer thing that can be left
//! showing yesterday's answer.
//!
//! What each state offers is the core's, not this file's; [`order`] is the only
//! ranking, and it is this surface's alone.

use super::wrap;
use super::wrap::wrap;
use crate::agent::schedule;
use crate::agent::schedule::days_left;
use crate::agent::status::Status;
use crate::describe::{lists_action, Action, Blocker, Condition};
use crate::lists;
use crate::sentence;
use crate::sentence::{say_about, Filler, FillerModel, Phrase, SentenceModel, Slot};
use crate::text;
use crate::text::same;
use crate::words::{Words, WordsModel};
use vstd::prelude::*;
use vstd::string::*;

verus! {

/// The order this surface offers what the model allows.
pub open spec fn order() -> Seq<Action> {
    seq![
        Action::Cancel,
        Action::OpenSettings,
        Action::ReinjectTicket,
        Action::SignIn,
        Action::DropKrbTicket,
        Action::SignOutIdp,
    ]
}

// ------------------------------------------------------------------ the outline

/// What a line of the status card says.
pub enum Said {
    Words(Words),
    /// A label, a colon, and a duration in seconds.
    Labelled { label: Phrase, duration: i64 },
}

#[verifier::ext_equal]
pub enum SaidModel {
    Words(WordsModel),
    Labelled { label: Phrase, duration: i64 },
}

impl View for Said {
    type V = SaidModel;

    open spec fn view(&self) -> SaidModel {
        match *self {
            Said::Words(w) => SaidModel::Words(w@),
            Said::Labelled { label, duration } => SaidModel::Labelled { label, duration },
        }
    }
}

/// The lines behind a vector of them.
pub open spec fn said(v: Seq<Said>) -> Seq<SaidModel> {
    Seq::new(v.len(), |i: int| v[i]@)
}

/// Everything the menu says about a state, before it is in any language. Where there
/// is a headline it is the first of the lines.
pub struct Outline {
    pub headline: bool,
    pub lines: Vec<Said>,
    pub actions: Vec<Action>,
}

/// A sentence of the card.
pub open spec fn sentence_line(s: SentenceModel) -> SaidModel {
    SaidModel::Words(WordsModel::Said(s))
}

/// The ticket clock, whenever there is access to put a number on.
pub open spec fn clock_lines(st: Status, access: bool) -> Seq<SaidModel> {
    match st.ticket {
        Some(t) if access => if st.condition is Flaky || st.condition is WillStop {
            seq![
                sentence_line(
                    sentence::about(
                        Phrase::AccessEndsIn,
                        Slot::Duration,
                        FillerModel::Duration(t.remaining),
                    ),
                ),
            ]
        } else {
            seq![SaidModel::Labelled { label: Phrase::MeterLabel, duration: t.remaining }]
        },
        _ => seq![],
    }
}

/// The deadline of an authorization.
pub open spec fn deadline_lines(st: Status, now: i64) -> Seq<SaidModel> {
    match st.grant_expiry {
        Some(t) => seq![
            sentence_line(
                sentence::about(
                    Phrase::GrantExpiresIn,
                    Slot::Days,
                    FillerModel::Days(schedule::days_to(t as int, now as int) as i64),
                ),
            ),
        ],
        None => seq![],
    }
}

/// A blocker with a line. A missing supply is suppressed where a headline already
/// says it.
pub open spec fn told(headline: bool) -> spec_fn(Blocker) -> bool {
    |b: Blocker| !(headline && b == Blocker::NoSupply)
}

/// A line for each blocker.
pub open spec fn blocker_lines(blockers: Seq<Blocker>) -> Seq<SaidModel> {
    Seq::new(blockers.len(), |i: int| SaidModel::Words(WordsModel::Blocked(blockers[i])))
}

/// What happened, where something did.
pub open spec fn message_lines(st: Status) -> Seq<SaidModel> {
    if st.message@.phrase is Silence {
        seq![]
    } else {
        seq![sentence_line(st.message@)]
    }
}

/// The lines of the status card.
pub open spec fn card(st: Status, headline: bool, identity: bool, access: bool, now: i64) -> Seq<
    SaidModel,
> {
    (if headline {
        seq![SaidModel::Words(WordsModel::Headline)]
    } else {
        seq![]
    }) + (if identity {
        seq![SaidModel::Words(WordsModel::Identity)]
    } else {
        seq![]
    }) + clock_lines(st, access) + deadline_lines(st, now) + blocker_lines(
        st.blockers@.filter(told(headline)),
    ) + message_lines(st)
}

/// What is on offer.
pub open spec fn offered(st: Status) -> spec_fn(Action) -> bool {
    |act: Action| st.actions@.contains(act)
}

/// The offers of the menu, in its order.
pub open spec fn offers(st: Status) -> Seq<Action> {
    order().filter(offered(st))
}

fn put_line(lines: &mut Vec<Said>, line: Said)
    ensures
        said(final(lines)@) == said(old(lines)@).push(line@),
{
    let ghost was = lines@;
    lines.push(line);
    assert(said(lines@) =~= said(was).push(line@));
}

fn put_clocks(lines: &mut Vec<Said>, st: &Status, access: bool, now: i64)
    requires
        schedule::clock(now),
    ensures
        said(final(lines)@) == said(old(lines)@) + clock_lines(*st, access) + deadline_lines(
            *st,
            now,
        ),
{
    let ghost was = said(lines@);
    if access {
        if let Some(t) = &st.ticket {
            if matches!(st.condition, Condition::Flaky | Condition::WillStop) {
                put_line(
                    lines,
                    Said::Words(
                        Words::Said(
                            say_about(
                                Phrase::AccessEndsIn,
                                Slot::Duration,
                                Filler::Duration(t.remaining),
                            ),
                        ),
                    ),
                );
            } else {
                put_line(
                    lines,
                    Said::Labelled { label: Phrase::MeterLabel, duration: t.remaining },
                );
            }
        }
    }
    assert(said(lines@) =~= was + clock_lines(*st, access));
    if let Some(deadline) = st.grant_expiry {
        put_line(
            lines,
            Said::Words(
                Words::Said(
                    say_about(
                        Phrase::GrantExpiresIn,
                        Slot::Days,
                        Filler::Days(days_left(deadline, now)),
                    ),
                ),
            ),
        );
    }
    assert(said(lines@) =~= was + clock_lines(*st, access) + deadline_lines(*st, now));
}

fn put_blockers(lines: &mut Vec<Said>, st: &Status, headline: bool)
    ensures
        said(final(lines)@) == said(old(lines)@) + blocker_lines(
            st.blockers@.filter(told(headline)),
        ),
{
    let ghost was = said(lines@);
    let ghost p = told(headline);
    let mut i: usize = 0;
    proof {
        assert(st.blockers@.take(0) =~= Seq::empty());
        lists::filter_empty(p);
        assert(said(lines@) =~= was + blocker_lines(Seq::empty()));
    }
    while i < st.blockers.len()
        invariant
            i <= st.blockers@.len(),
            p == told(headline),
            said(lines@) == was + blocker_lines(st.blockers@.take(i as int).filter(p)),
        decreases st.blockers@.len() - i,
    {
        let b = st.blockers[i];
        let ghost before = st.blockers@.take(i as int).filter(p);
        proof {
            assert(st.blockers@.take(i + 1) =~= st.blockers@.take(i as int).push(b));
            lists::filter_push(st.blockers@.take(i as int), b, p);
        }
        if !(headline && b == Blocker::NoSupply) {
            put_line(lines, Said::Words(Words::Blocked(b)));
            assert(blocker_lines(before.push(b)) =~= blocker_lines(before).push(
                SaidModel::Words(WordsModel::Blocked(b)),
            ));
            assert(said(lines@) =~= was + blocker_lines(before.push(b)));
        }
        i = i + 1;
    }
    assert(st.blockers@.take(i as int) =~= st.blockers@);
}

fn offers_of(st: &Status) -> (out: Vec<Action>)
    ensures
        out@ == offers(*st),
{
    let all: Vec<Action> = vec![
        Action::Cancel,
        Action::OpenSettings,
        Action::ReinjectTicket,
        Action::SignIn,
        Action::DropKrbTicket,
        Action::SignOutIdp,
    ];
    let ghost p = offered(*st);
    let mut out: Vec<Action> = Vec::new();
    let mut i: usize = 0;
    proof {
        assert(all@.take(0) =~= Seq::empty());
        lists::filter_empty(p);
    }
    while i < all.len()
        invariant
            i <= all@.len(),
            p == offered(*st),
            out@ == all@.take(i as int).filter(p),
        decreases all@.len() - i,
    {
        let act = all[i];
        proof {
            assert(all@.take(i + 1) =~= all@.take(i as int).push(act));
            lists::filter_push(all@.take(i as int), act, p);
        }
        if lists_action(&st.actions, act) {
            out.push(act);
        }
        i = i + 1;
    }
    assert(all@.take(i as int) =~= all@);
    assert(all@ =~= order());
    out
}

/// What the menu says about the current state. `headline` and `identity` say whether
/// the product's copy has either for it, and `access` whether the machine holds a
/// ticket it could spend.
pub fn outline(st: &Status, headline: bool, identity: bool, access: bool, now: i64) -> (r: Outline)
    requires
        schedule::clock(now),
    ensures
        r.headline == headline,
        said(r.lines@) == card(*st, headline, identity, access, now),
        r.actions@ == offers(*st),
{
    let mut lines: Vec<Said> = Vec::new();
    if headline {
        put_line(&mut lines, Said::Words(Words::Headline));
    }
    if identity {
        put_line(&mut lines, Said::Words(Words::Identity));
    }
    put_clocks(&mut lines, st, access, now);
    put_blockers(&mut lines, st, headline);
    if !st.message.is_empty() {
        put_line(&mut lines, Said::Words(Words::Said(st.message.clone())));
    }
    assert(said(lines@) =~= card(*st, headline, identity, access, now));
    Outline { headline, lines, actions: offers_of(st) }
}

// --------------------------------------------------------------------- the plan

/// One line of the status card, already broken to the width of the menu.
#[derive(PartialEq, Eq, Debug)]
pub struct Line {
    pub text: String,
    /// The condition's own line, drawn in bold. At most one.
    pub headline: bool,
}

/// One offer, as the menu will draw it.
#[derive(PartialEq, Eq, Debug)]
pub struct Offer {
    pub action: Action,
    pub label: String,
    /// Running already, so the item is disabled rather than absent -- it stays where
    /// the user last saw it.
    pub running: bool,
}

/// Everything the menu draws.
#[derive(PartialEq, Eq, Debug)]
pub struct Plan {
    pub lines: Vec<Line>,
    pub actions: Vec<Offer>,
    /// A ticket the OS can spend, so the Kerberos details would describe something
    /// rather than nothing.
    pub details: bool,
}

#[verifier::ext_equal]
pub struct LineModel {
    pub text: Seq<char>,
    pub headline: bool,
}

#[verifier::ext_equal]
pub struct OfferModel {
    pub action: Action,
    pub label: Seq<char>,
    pub running: bool,
}

#[verifier::ext_equal]
pub struct PlanModel {
    pub lines: Seq<LineModel>,
    pub actions: Seq<OfferModel>,
    pub details: bool,
}

impl View for Line {
    type V = LineModel;

    open spec fn view(&self) -> LineModel {
        LineModel { text: self.text@, headline: self.headline }
    }
}

impl View for Offer {
    type V = OfferModel;

    open spec fn view(&self) -> OfferModel {
        OfferModel { action: self.action, label: self.label@, running: self.running }
    }
}

/// The lines behind a vector of them.
pub open spec fn lines_of(v: Seq<Line>) -> Seq<LineModel> {
    Seq::new(v.len(), |i: int| v[i]@)
}

/// The offers behind a vector of them.
pub open spec fn offers_in(v: Seq<Offer>) -> Seq<OfferModel> {
    Seq::new(v.len(), |i: int| v[i]@)
}

impl View for Plan {
    type V = PlanModel;

    open spec fn view(&self) -> PlanModel {
        PlanModel {
            lines: lines_of(self.lines@),
            actions: offers_in(self.actions@),
            details: self.details,
        }
    }
}

/// The plan for an outline: the words of its lines and of its offers, in order.
pub open spec fn planned(
    headline: bool,
    said: Seq<Seq<char>>,
    actions: Seq<Action>,
    labels: Seq<Seq<char>>,
    in_flight: Seq<Action>,
    usable: bool,
) -> PlanModel {
    PlanModel {
        lines: Seq::new(
            said.len(),
            |i: int| LineModel { text: wrap::wrapped(said[i]), headline: headline && i == 0 },
        ),
        actions: Seq::new(
            actions.len(),
            |i: int|
                OfferModel {
                    action: actions[i],
                    label: labels[i],
                    running: in_flight.contains(actions[i]),
                },
        ),
        details: usable,
    }
}

/// The whole of what the menu draws: `said` are the words of the outline's lines and
/// `labels` those of its offers, in order.
pub fn plan(o: &Outline, said: &Vec<String>, labels: &Vec<String>, st: &Status) -> (r: Plan)
    requires
        said@.len() == o.lines@.len(),
        labels@.len() == o.actions@.len(),
    ensures
        r@ == planned(
            o.headline,
            text::texts(said@),
            o.actions@,
            text::texts(labels@),
            st.in_flight@,
            st.usable,
        ),
{
    let mut lines: Vec<Line> = Vec::new();
    let mut i: usize = 0;
    while i < said.len()
        invariant
            i <= said@.len(),
            lines@.len() == i,
            forall|k: int|
                0 <= k < i ==> (#[trigger] lines@[k])@ == (LineModel {
                    text: wrap::wrapped(said@[k]@),
                    headline: o.headline && k == 0,
                }),
        decreases said@.len() - i,
    {
        lines.push(Line { text: wrap(said[i].as_str()), headline: o.headline && i == 0 });
        i = i + 1;
    }
    let mut actions: Vec<Offer> = Vec::new();
    let mut j: usize = 0;
    while j < o.actions.len()
        invariant
            labels@.len() == o.actions@.len(),
            j <= o.actions@.len(),
            actions@.len() == j,
            forall|k: int|
                0 <= k < j ==> (#[trigger] actions@[k])@ == (OfferModel {
                    action: o.actions@[k],
                    label: labels@[k]@,
                    running: st.in_flight@.contains(o.actions@[k]),
                }),
        decreases o.actions@.len() - j,
    {
        actions.push(
            Offer {
                action: o.actions[j],
                label: labels[j].clone(),
                running: lists_action(&st.in_flight, o.actions[j]),
            },
        );
        j = j + 1;
    }
    let r = Plan { lines, actions, details: st.usable };
    proof {
        let owed = planned(
            o.headline,
            text::texts(said@),
            o.actions@,
            text::texts(labels@),
            st.in_flight@,
            st.usable,
        );
        assert(r@.lines =~= owed.lines);
        assert(r@.actions =~= owed.actions);
    }
    r
}

fn same_line(a: &Line, b: &Line) -> (r: bool)
    ensures
        r == (a@ == b@),
{
    same(a.text.as_str(), b.text.as_str()) && a.headline == b.headline
}

fn same_offer(a: &Offer, b: &Offer) -> (r: bool)
    ensures
        r == (a@ == b@),
{
    a.action == b.action && same(a.label.as_str(), b.label.as_str()) && a.running == b.running
}

/// The first offer that keeps access.
pub open spec fn leading(actions: Seq<OfferModel>) -> Option<Seq<char>>
    decreases actions.len(),
{
    if actions.len() == 0 {
        None
    } else if actions[0].action != Action::Cancel {
        Some(actions[0].label)
    } else {
        leading(actions.drop_first())
    }
}

impl Plan {
    /// The label of the offer this surface is leading with, for the two notifications
    /// that name one, and `nothing` where there is none.
    ///
    /// *Cancel* is skipped although it leads the menu: those two sentences read
    /// "{action} to keep access", and stopping a sign-in is the opposite of that.
    pub fn primary_label(&self, nothing: &str) -> (r: String)
        ensures
            r@ == (match leading(self@.actions) {
                Some(label) => label,
                None => nothing@,
            }),
    {
        let ghost all = self@.actions;
        let mut i: usize = 0;
        assert(all.skip(0) =~= all);
        while i < self.actions.len()
            invariant
                all == self@.actions,
                i <= self.actions@.len(),
                leading(all) == leading(all.skip(i as int)),
            decreases self.actions@.len() - i,
        {
            assert(all.skip(i as int)[0] == self.actions@[i as int]@);
            if self.actions[i].action != Action::Cancel {
                return self.actions[i].label.clone();
            }
            assert(all.skip(i as int).drop_first() =~= all.skip(i + 1));
            i = i + 1;
        }
        nothing.to_owned()
    }

    /// The action behind an item.
    pub fn action(&self, index: usize) -> (r: Option<Action>)
        ensures
            r == (if index < self@.actions.len() {
                Some(self@.actions[index as int].action)
            } else {
                None
            }),
    {
        if index < self.actions.len() {
            assert(self@.actions[index as int] == self.actions@[index as int]@);
            Some(self.actions[index].action)
        } else {
            None
        }
    }

    /// Whether two plans draw the same menu.
    pub fn same_as(&self, other: &Plan) -> (r: bool)
        ensures
            r == (self@ == other@),
    {
        if self.details != other.details || self.lines.len() != other.lines.len()
            || self.actions.len() != other.actions.len() {
            assert(self@.lines.len() == self.lines@.len());
            assert(other@.lines.len() == other.lines@.len());
            assert(self@.actions.len() == self.actions@.len());
            assert(other@.actions.len() == other.actions@.len());
            return false;
        }
        let mut i: usize = 0;
        while i < self.lines.len()
            invariant
                self.lines@.len() == other.lines@.len(),
                i <= self.lines@.len(),
                forall|k: int| 0 <= k < i ==> (#[trigger] self.lines@[k])@ == other.lines@[k]@,
            decreases self.lines@.len() - i,
        {
            if !same_line(&self.lines[i], &other.lines[i]) {
                assert(self@.lines[i as int] != other@.lines[i as int]);
                return false;
            }
            i = i + 1;
        }
        let mut j: usize = 0;
        while j < self.actions.len()
            invariant
                self.actions@.len() == other.actions@.len(),
                j <= self.actions@.len(),
                forall|k: int|
                    0 <= k < j ==> (#[trigger] self.actions@[k])@ == other.actions@[k]@,
            decreases self.actions@.len() - j,
        {
            if !same_offer(&self.actions[j], &other.actions[j]) {
                assert(self@.actions[j as int] != other@.actions[j as int]);
                return false;
            }
            j = j + 1;
        }
        assert(self@.lines =~= other@.lines);
        assert(self@.actions =~= other@.actions);
        true
    }
}

// ----------------------------------------------------------------- the commands

#[derive(Clone, Copy, PartialEq, Eq, Debug, Structural)]
pub enum Command {
    Offer(usize),
    Details,
    Log,
    Settings,
    Help,
    About,
    Quit,
}

/// The tag an item carries.
pub open spec fn tag_of(c: Command) -> int {
    match c {
        Command::Offer(i) => i as int,
        Command::Details => -1,
        Command::Log => -2,
        Command::Settings => -3,
        Command::Help => -4,
        Command::About => -5,
        Command::Quit => -6,
    }
}

impl Command {
    pub fn tag(self) -> (r: isize)
        requires
            self matches Command::Offer(i) ==> i <= isize::MAX,
        ensures
            r == tag_of(self),
    {
        match self {
            Command::Offer(i) => i as isize,
            Command::Details => -1,
            Command::Log => -2,
            Command::Settings => -3,
            Command::Help => -4,
            Command::About => -5,
            Command::Quit => -6,
        }
    }

    /// The command of a tag. A tag that no item carries has none.
    pub fn from_tag(tag: isize) -> (r: Option<Command>)
        ensures
            r is Some <==> tag >= -6,
            r matches Some(c) ==> tag_of(c) == tag,
    {
        if tag >= 0 {
            return Some(Command::Offer(tag as usize));
        }
        match tag {
            -1 => Some(Command::Details),
            -2 => Some(Command::Log),
            -3 => Some(Command::Settings),
            -4 => Some(Command::Help),
            -5 => Some(Command::About),
            -6 => Some(Command::Quit),
            _ => None,
        }
    }
}

// --------------------------------------------------------------------- the items

/// An item of the menu.
#[derive(Clone, Copy, PartialEq, Eq, Debug, Structural)]
pub enum Item {
    /// A line of the status card, disabled.
    Info(usize),
    Separator,
    /// An offer, and whether it can be pressed.
    Offer { index: usize, enabled: bool },
    /// A command of the surface. `dialog` promises that it opens something rather than
    /// doing it.
    Entry { label: Phrase, dialog: bool, command: Command },
}

/// The status card.
pub open spec fn info_items(n: int) -> Seq<Item> {
    Seq::new(n as nat, |i: int| Item::Info(i as usize))
}

/// The offers.
pub open spec fn offer_items(actions: Seq<OfferModel>) -> Seq<Item> {
    Seq::new(
        actions.len(),
        |i: int| Item::Offer { index: i as usize, enabled: !actions[i].running },
    )
}

/// What stands under them in every state. The details answer a question nobody has
/// while the thing is working, which is why they are a sheet rather than more lines on
/// the card.
pub open spec fn standing_items(details: bool) -> Seq<Item> {
    seq![Item::Separator] + (if details {
        seq![
            Item::Entry {
                label: Phrase::DetailsHeading,
                dialog: true,
                command: Command::Details,
            },
        ]
    } else {
        seq![]
    }) + seq![
        Item::Entry { label: Phrase::ActOpenLog, dialog: false, command: Command::Log },
        Item::Entry { label: Phrase::MenuSettings, dialog: false, command: Command::Settings },
        Item::Entry { label: Phrase::MenuHelp, dialog: false, command: Command::Help },
        Item::Entry { label: Phrase::TabAbout, dialog: true, command: Command::About },
        Item::Separator,
        Item::Entry { label: Phrase::MenuQuit, dialog: false, command: Command::Quit },
    ]
}

/// The whole menu.
pub open spec fn items_of(p: PlanModel) -> Seq<Item> {
    info_items(p.lines.len() as int) + (if p.actions.len() > 0 {
        seq![Item::Separator]
    } else {
        seq![]
    }) + offer_items(p.actions) + standing_items(p.details)
}

/// The items of the menu for a plan.
pub fn build(p: &Plan) -> (items: Vec<Item>)
    ensures
        items@ == items_of(p@),
{
    let mut items: Vec<Item> = Vec::new();
    let mut i: usize = 0;
    assert(items@ =~= info_items(0));
    while i < p.lines.len()
        invariant
            i <= p.lines@.len(),
            items@ == info_items(i as int),
        decreases p.lines@.len() - i,
    {
        items.push(Item::Info(i));
        i = i + 1;
        assert(items@ =~= info_items(i as int));
    }
    if p.actions.len() > 0 {
        items.push(Item::Separator);
    }
    let ghost head = items@;
    let ghost all = p@.actions;
    assert(head =~= head + offer_items(all.take(0)));
    let mut j: usize = 0;
    while j < p.actions.len()
        invariant
            all == p@.actions,
            j <= p.actions@.len(),
            items@ == head + offer_items(all.take(j as int)),
        decreases p.actions@.len() - j,
    {
        items.push(Item::Offer { index: j, enabled: !p.actions[j].running });
        assert(all[j as int] == p.actions@[j as int]@);
        j = j + 1;
        assert(items@ =~= head + offer_items(all.take(j as int)));
    }
    assert(all.take(j as int) =~= all);
    items.push(Item::Separator);
    if p.details {
        items.push(
            Item::Entry {
                label: Phrase::DetailsHeading,
                dialog: true,
                command: Command::Details,
            },
        );
    }
    // This platform's Settings is one alert, so it has no section to hold the
    // permanent route to the log. This is it.
    items.push(Item::Entry { label: Phrase::ActOpenLog, dialog: false, command: Command::Log });
    items.push(
        Item::Entry { label: Phrase::MenuSettings, dialog: false, command: Command::Settings },
    );
    items.push(Item::Entry { label: Phrase::MenuHelp, dialog: false, command: Command::Help });
    items.push(Item::Entry { label: Phrase::TabAbout, dialog: true, command: Command::About });
    items.push(Item::Separator);
    items.push(Item::Entry { label: Phrase::MenuQuit, dialog: false, command: Command::Quit });
    assert(items@ =~= items_of(p@));
    items
}

/// The platform's promise that a command opens something rather than doing it. A
/// convention of this surface, not of the words.
pub fn opens_a_dialog(title: &str) -> (r: String)
    ensures
        r@ == title@ + "…"@,
{
    text::joined(title, "…")
}

// ------------------------------------------------------------------------ laws

/// A tag stands for one command: no two commands share one, and none is past the last
/// that [`Command::from_tag`] reads back.
pub proof fn law_a_tag_is_one_command(a: Command, b: Command)
    ensures
        tag_of(a) == tag_of(b) ==> a == b,
        tag_of(a) >= -6,
{
}

/// Every item that can be pressed but is not an offer stands in every menu, but for
/// the details; and there is always a way out.
pub proof fn law_there_is_always_a_way_out(p: PlanModel)
    ensures
        items_of(p).last() == (Item::Entry {
            label: Phrase::MenuQuit,
            dialog: false,
            command: Command::Quit,
        }),
        items_of(p).contains(
            Item::Entry { label: Phrase::ActOpenLog, dialog: false, command: Command::Log },
        ),
{
    let log = Item::Entry { label: Phrase::ActOpenLog, dialog: false, command: Command::Log };
    let n = items_of(p).len();
    assert(items_of(p)[n - 6] == log);
}

/// Where an operation stands in the menu.
pub open spec fn menu_rank(act: Action) -> int {
    match act {
        Action::Cancel => 0,
        Action::OpenSettings => 1,
        Action::ReinjectTicket => 2,
        Action::SignIn => 3,
        Action::DropKrbTicket => 4,
        Action::SignOutIdp => 5,
        _ => 6,
    }
}

/// The menu offers exactly what is on offer among its six operations.
pub proof fn law_the_menu_offers_what_is_on_offer(st: Status, act: Action)
    ensures
        offers(st).contains(act) <==> menu_rank(act) < 6 && st.actions@.contains(act),
{
    let o = order();
    lists::filter_holds(o, offered(st), act);
    assert(o[0] == Action::Cancel && o[1] == Action::OpenSettings && o[2] == Action::ReinjectTicket
        && o[3] == Action::SignIn && o[4] == Action::DropKrbTicket && o[5] == Action::SignOutIdp);
}

/// Whatever it offers stands in one order.
pub proof fn law_the_menu_has_one_order(st: Status, i: int, j: int)
    requires
        0 <= i < j < offers(st).len(),
    ensures
        menu_rank(offers(st)[i]) < menu_rank(offers(st)[j]),
{
    let o = order();
    assert(forall|k: int| 0 <= k < o.len() ==> menu_rank(#[trigger] o[k]) == k);
    lists::filter_keeps_order(o, offered(st), |act: Action| menu_rank(act), i, j);
}

/// The card says how things are and for whom, how long, until when, what is missing and what
/// was last said, in that order; a renewal that only lacks its supply is said once.
pub proof fn law_what_the_card_says(
    st: Status,
    headline: bool,
    identity: bool,
    access: bool,
    now: i64,
    b: Blocker,
)
    ensures
        ({
            let c = card(st, headline, identity, access, now);
            &&& headline ==> c[0] == SaidModel::Words(WordsModel::Headline)
            &&& identity && headline ==> c[1] == SaidModel::Words(WordsModel::Identity)
            &&& identity && !headline ==> c[0] == SaidModel::Words(WordsModel::Identity)
            &&& !(st.message@.phrase is Silence) ==> c.last() == SaidModel::Words(
                WordsModel::Said(st.message@),
            )
            &&& c.len() == (if headline {
                1int
            } else {
                0
            }) + (if identity {
                1int
            } else {
                0
            }) + clock_lines(st, access).len() + deadline_lines(st, now).len()
                + st.blockers@.filter(told(headline)).len() + (if st.message@.phrase is Silence {
                0int
            } else {
                1
            })
        }),
        st.blockers@.filter(told(headline)).contains(b) <==> st.blockers@.contains(b) && !(headline
            && b == Blocker::NoSupply),
        clock_lines(st, access).len() > 0 <==> access && st.ticket is Some,
        st.ticket matches Some(t) ==> (access ==> clock_lines(st, access)[0] == (if st.condition
            == Condition::Flaky || st.condition == Condition::WillStop {
            SaidModel::Words(
                WordsModel::Said(
                    sentence::about(
                        Phrase::AccessEndsIn,
                        Slot::Duration,
                        FillerModel::Duration(t.remaining),
                    ),
                ),
            )
        } else {
            SaidModel::Labelled { label: Phrase::MeterLabel, duration: t.remaining }
        })),
        deadline_lines(st, now).len() > 0 <==> st.grant_expiry is Some,
        st.grant_expiry matches Some(t) ==> deadline_lines(st, now)[0] == SaidModel::Words(
            WordsModel::Said(
                sentence::about(
                    Phrase::GrantExpiresIn,
                    Slot::Days,
                    FillerModel::Days(schedule::days_to(t as int, now as int) as i64),
                ),
            ),
        ),
{
    lists::filter_holds(st.blockers@, told(headline), b);
}

/// What is missing is said in its order, one line each.
pub proof fn law_every_blocker_is_a_line(blockers: Seq<Blocker>, i: int)
    requires
        0 <= i < blockers.len(),
    ensures
        blocker_lines(blockers).len() == blockers.len(),
        blocker_lines(blockers)[i] == SaidModel::Words(WordsModel::Blocked(blockers[i])),
{
}

/// A plan has every line, wrapped, with the first the headline where there is one; every
/// offer with its own label, dead while it runs; and the details where a ticket could be
/// spent.
pub proof fn law_what_a_plan_has(
    headline: bool,
    said: Seq<Seq<char>>,
    actions: Seq<Action>,
    labels: Seq<Seq<char>>,
    in_flight: Seq<Action>,
    usable: bool,
    i: int,
)
    ensures
        ({
            let p = planned(headline, said, actions, labels, in_flight, usable);
            &&& p.lines.len() == said.len() && p.actions.len() == actions.len()
            &&& 0 <= i < said.len() ==> p.lines[i].text == wrap::wrapped(said[i])
                && p.lines[i].headline == (headline && i == 0)
            &&& 0 <= i < actions.len() ==> p.actions[i].action == actions[i] && p.actions[i].label
                == labels[i] && (p.actions[i].running <==> in_flight.contains(actions[i]))
            &&& p.details == usable
        }),
{
}

/// The label that leads is the first offer's that is not to cancel.
pub proof fn law_which_label_leads(actions: Seq<OfferModel>, i: int)
    requires
        0 <= i < actions.len(),
        actions[i].action != Action::Cancel,
        forall|k: int| 0 <= k < i ==> (#[trigger] actions[k]).action == Action::Cancel,
    ensures
        leading(actions) == Some(actions[i].label),
    decreases actions.len(),
{
    if i > 0 {
        assert(actions[0].action == Action::Cancel);
        let t = actions.drop_first();
        assert forall|k: int| 0 <= k < i - 1 implies (#[trigger] t[k]).action == Action::Cancel by {
            assert(actions[k + 1] == t[k]);
        }
        law_which_label_leads(t, i - 1);
    }
}

/// Nothing leads where there is nothing but a way to cancel.
pub proof fn law_nothing_leads_without_an_offer(actions: Seq<OfferModel>)
    requires
        forall|k: int| 0 <= k < actions.len() ==> (#[trigger] actions[k]).action == Action::Cancel,
    ensures
        leading(actions) is None,
    decreases actions.len(),
{
    if actions.len() > 0 {
        assert(actions[0].action == Action::Cancel);
        let t = actions.drop_first();
        assert forall|k: int| 0 <= k < t.len() implies (#[trigger] t[k]).action == Action::Cancel by {
            assert(actions[k + 1] == t[k]);
        }
        law_nothing_leads_without_an_offer(t);
    }
}

/// A menu has every line and every offer of its plan in order, an offer dead while it runs,
/// and below them what always stands there.
pub proof fn law_what_stands_in_a_menu(p: PlanModel, i: int)
    requires
        p.lines.len() <= usize::MAX,
        p.actions.len() <= usize::MAX,
    ensures
        ({
            let m = items_of(p);
            let n = p.lines.len() as int;
            let k = p.actions.len() as int;
            let s = n + (if k > 0 {
                k + 1
            } else {
                0
            });
            &&& 0 <= i < n ==> m[i] == Item::Info(i as usize)
            &&& k > 0 ==> m[n] == Item::Separator
            &&& 0 <= i < k ==> m[n + 1 + i] == (Item::Offer {
                index: i as usize,
                enabled: !p.actions[i].running,
            })
            &&& m[s] == Item::Separator
            &&& m.len() == s + 7 + (if p.details {
                1int
            } else {
                0
            })
            &&& p.details ==> m[s + 1] == (Item::Entry {
                label: Phrase::DetailsHeading,
                dialog: true,
                command: Command::Details,
            })
            &&& m[m.len() - 6] == (Item::Entry {
                label: Phrase::ActOpenLog,
                dialog: false,
                command: Command::Log,
            })
            &&& m[m.len() - 5] == (Item::Entry {
                label: Phrase::MenuSettings,
                dialog: false,
                command: Command::Settings,
            })
            &&& m[m.len() - 4] == (Item::Entry {
                label: Phrase::MenuHelp,
                dialog: false,
                command: Command::Help,
            })
            &&& m[m.len() - 3] == (Item::Entry {
                label: Phrase::TabAbout,
                dialog: true,
                command: Command::About,
            })
        }),
{
}

} // verus!
