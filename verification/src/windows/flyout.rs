//! The status flyout: a borderless popup that opens from the tray icon and
//! dismisses on blur. It is torn down and re-laid on every change, so what is on
//! screen is always the current status and never a patched-up older one.

use super::modal;
use super::modal::{shielded, IDCANCEL};
use super::present;
use super::present::{condition_role, ranked, rule_role};
use super::settings::BN_CLICKED;
use super::sys::hiword;
use super::ui;
use super::ui::{put, Button, ButtonModel, Fit, Role, Row, RowModel};
use crate::agent::schedule;
use crate::agent::schedule::{days_left, GRANT_DUE_SOON_SECS};
use crate::agent::status::{Status, TicketClock};
use crate::describe::{lists_action, Action, Blocker, Condition, Supply};
use crate::lists;
use crate::sentence;
use crate::sentence::{
    say, say_about, text_value, Filler, FillerModel, Phrase, Sentence, SentenceModel, Slot,
};
use crate::words;
use crate::words::{words, Words, WordsModel};
use vstd::prelude::*;
use vstd::string::*;

verus! {

// Flyout command ids. One per action rather than per control: the label is chosen
// by state and the command is what the action *is*, so no two controls can reach
// the same verb under different names.
pub const CMD_ACTION_BASE: u16 = 100;

pub const CMD_OPEN_LOG: u16 = 120;

pub const CMD_SETTINGS_GEAR: u16 = 121;

pub const CMD_TOGGLE_DETAILS: u16 = 122;

/// How long after an activation-loss hide a tray click is treated as "that was the
/// click that closed it", not "open it again".
pub const REOPEN_SUPPRESSION_MS: u64 = 300;

/// A grant's deadline is worth the warning color from this many days on.
pub const DUE_SOON_DAYS: i64 = 7;

// ----------------------------------------------------------------- the headline

/// A sentence with a time in it.
pub open spec fn clock_line(t: TicketClock) -> RowModel {
    RowModel::Line {
        text: WordsModel::Said(
            sentence::about(
                Phrase::AccessEndsIn,
                Slot::Duration,
                FillerModel::Duration(t.remaining),
            ),
        ),
        role: Role::Warn,
    }
}

/// The ticket clock is promoted to the front page exactly when it is a deadline
/// rather than a countdown to an automatic renewal.
pub open spec fn ticket_deadline(st: Status) -> Seq<RowModel> {
    if st.condition is Flaky || st.condition is WillStop {
        match st.ticket {
            Some(t) => seq![clock_line(t)],
            None => seq![],
        }
    } else {
        seq![]
    }
}

/// The deadline of an authorization.
pub open spec fn grant_deadline(st: Status, now: i64) -> Seq<RowModel> {
    match st.grant_expiry {
        Some(t) => seq![
            RowModel::Line {
                text: WordsModel::Said(
                    sentence::about(
                        Phrase::GrantExpiresIn,
                        Slot::Days,
                        FillerModel::Days(schedule::days_to(t as int, now as int) as i64),
                    ),
                ),
                role: if schedule::days_to(t as int, now as int) <= DUE_SOON_DAYS {
                    Role::Warn
                } else {
                    Role::Sub
                },
            },
        ],
        None => seq![],
    }
}

/// Anything for me to do? first, identity beneath, then the clocks.
pub open spec fn head(st: Status, headline: bool, identity: bool, now: i64) -> Seq<RowModel> {
    seq![RowModel::Header, RowModel::Gap(10)] + (if headline {
        seq![RowModel::Title { text: WordsModel::Headline, role: present::role_of(st.condition) }]
    } else {
        seq![]
    }) + (if identity {
        seq![RowModel::Field { text: WordsModel::Identity, role: Role::FlatSub }]
    } else {
        seq![]
    }) + ticket_deadline(st) + grant_deadline(st, now)
}

// -------------------------------------------------------------- the explanation

/// A blocker that is explained. A missing supply is suppressed here and only here:
/// with the headline above it and the button below it, it is the third statement of
/// one fact.
pub open spec fn explained() -> spec_fn(Blocker) -> bool {
    |b: Blocker| b != Blocker::NoSupply
}

/// The blockers that are explained.
pub open spec fn explanations(st: Status) -> Seq<Blocker> {
    st.blockers@.filter(explained())
}

/// A blocker's line.
pub open spec fn why(b: Blocker) -> RowModel {
    RowModel::Explained { text: WordsModel::Blocked(b), role: Role::Text }
}

/// A line for each of the first `n` blockers.
pub open spec fn whys(blockers: Seq<Blocker>, n: int) -> Seq<RowModel> {
    Seq::new(n as nat, |i: int| why(blockers[i]))
}

/// Whether the status has something to say.
pub open spec fn speaks(st: Status) -> bool {
    !(st.message@.phrase is Silence)
}

/// The explanation block: the rule with the severity, the blocker lines, and then
/// the message in subtext.
pub open spec fn explanation(st: Status) -> Seq<RowModel> {
    let lines = explanations(st);
    if lines.len() == 0 && !speaks(st) {
        seq![]
    } else {
        seq![
            RowModel::Gap(6),
            RowModel::Rule {
                role: present::rule_of(st),
                beside: (lines.len() + (if speaks(st) {
                    1int
                } else {
                    0int
                })) as usize,
            },
        ] + whys(lines, lines.len() as int) + (if speaks(st) {
            seq![RowModel::Explained { text: WordsModel::Said(st.message@), role: Role::Sub }]
        } else {
            seq![]
        })
    }
}

// ------------------------------------------------------------------ the buttons

/// Whether the second slot leads to the log: the one conditional route to it.
pub open spec fn offers_log(st: Status) -> bool {
    &&& !st.actions@.contains(Action::Cancel)
    &&& explanations(st).len() > 0 || st.fault
    &&& speaks(st)
}

/// The actions with a button. At most two, by the surface's own priority, and the
/// second slot is spoken for whenever a browser leg is cancellable or something has
/// failed.
pub open spec fn slots(st: Status, now: i64) -> Seq<Action> {
    let offer = present::ranking(st, now);
    let first = if offer.len() > 0 {
        seq![offer[0]]
    } else {
        seq![]
    };
    if st.actions@.contains(Action::Cancel) {
        first.push(Action::Cancel)
    } else if offers_log(st) || offer.len() < 2 {
        first
    } else {
        first.push(offer[1])
    }
}

/// The button of the action in a slot. Disabled rather than hidden while it runs.
pub open spec fn slot_button(st: Status, act: Action, i: int) -> ButtonModel {
    ButtonModel {
        label: WordsModel::Offer(act),
        id: (CMD_ACTION_BASE + i) as u16,
        enabled: !st.in_flight@.contains(act),
        primary: i == 0 && !st.in_flight@.contains(act),
        shield: modal::needs_shield(act),
    }
}

/// The button that opens the log.
pub open spec fn log_button(i: int) -> ButtonModel {
    ButtonModel {
        label: words::phrased(Phrase::ActOpenLog),
        id: CMD_OPEN_LOG,
        enabled: true,
        primary: i == 0,
        shield: false,
    }
}

/// The buttons of the flyout.
pub open spec fn buttons(st: Status, now: i64) -> Seq<ButtonModel> {
    let acts = slots(st, now);
    Seq::new(acts.len(), |i: int| slot_button(st, acts[i], i)) + (if offers_log(st) {
        seq![log_button(acts.len() as int)]
    } else {
        seq![]
    })
}

/// The button row, or that there is nothing to press.
pub open spec fn offer_row(st: Status, now: i64) -> Seq<RowModel> {
    if buttons(st, now).len() == 0 {
        seq![RowModel::Wrap { text: words::phrased(Phrase::NoAction), role: Role::Sub }]
    } else {
        seq![RowModel::Buttons { buttons: buttons(st, now), fit: Fit::Equal }]
    }
}

// ------------------------------------------------------------------- the drawer

/// A label and its value.
pub open spec fn detail(label: Phrase, value: SentenceModel) -> RowModel {
    RowModel::Detail { label: words::phrased(label), value: WordsModel::Said(value) }
}

/// A text that needs no translation.
pub open spec fn verbatim(s: Seq<char>) -> SentenceModel {
    sentence::about(Phrase::Verbatim, Slot::Detail, FillerModel::Text(s))
}

/// What stands behind the next renewal.
pub open spec fn supply_phrase(s: Supply) -> Phrase {
    match s {
        Supply::Grant => Phrase::DSupplyGrant,
        Supply::WindowsSignIn => Phrase::DSupplyWam,
        Supply::BrowserSignIn => Phrase::DSupplyBrowser,
        Supply::Nothing => Phrase::DSupplyNone,
    }
}

/// When the ticket ends.
pub open spec fn ticket_value(t: TicketClock) -> SentenceModel {
    sentence::about(
        if t.renewable {
            Phrase::DTicketValue
        } else {
            Phrase::DTicketValueNorenew
        },
        Slot::Time,
        FillerModel::Time(t.end),
    )
}

/// How much of the ticket is left.
pub open spec fn meter(st: Status) -> Seq<RowModel> {
    match st.ticket {
        Some(t) => seq![
            RowModel::Meter {
                text: words::phrased(Phrase::MeterLabel),
                role: if st.condition is Working {
                    Role::Good
                } else {
                    Role::Warn
                },
                remaining: t.remaining,
                lifetime: t.lifetime,
            },
            RowModel::Gap(8),
        ],
        None => seq![],
    }
}

/// What the ticket is for. The realm leads: it names the subject every other row is
/// about.
pub open spec fn subject(st: Status) -> Seq<RowModel> {
    seq![detail(Phrase::DRealm, verbatim(st.realm@))] + (if st.source@.len() > 0 {
        seq![detail(Phrase::DSource, verbatim(st.source@))]
    } else {
        seq![]
    }) + (match st.ticket {
        Some(t) => seq![detail(Phrase::DTicket, ticket_value(t))],
        None => seq![],
    })
}

/// What happens next, and from what.
pub open spec fn outlook(st: Status) -> Seq<RowModel> {
    seq![detail(Phrase::DSupply, sentence::plain(supply_phrase(st.supply)))] + (
    match st.next_attempt_at_earliest {
        Some(next) => seq![
            detail(
                Phrase::DNext,
                sentence::about(Phrase::Verbatim, Slot::Detail, FillerModel::Time(next)),
            ),
        ],
        None => seq![],
    })
}

/// What moves, plus the realm.
pub open spec fn details(st: Status) -> Seq<RowModel> {
    meter(st) + subject(st) + outlook(st)
}

/// What is under the buttons: the marquee while something runs, and the drawer where
/// there is a ticket that something could use.
pub open spec fn tail(st: Status, open: bool) -> Seq<RowModel> {
    (if st.in_flight@.len() > 0 {
        seq![RowModel::Gap(6), RowModel::Marquee]
    } else {
        seq![]
    }) + (if st.usable {
        seq![
            RowModel::Gap(10),
            RowModel::Disclosure {
                text: words::phrased(Phrase::DetailsHeading),
                open,
                id: CMD_TOGGLE_DETAILS,
            },
        ] + (if open {
            seq![RowModel::Gap(4)] + details(st)
        } else {
            seq![]
        })
    } else {
        seq![]
    })
}

/// The whole flyout.
pub open spec fn flyout(st: Status, headline: bool, identity: bool, open: bool, now: i64) -> Seq<
    RowModel,
> {
    head(st, headline, identity, now) + explanation(st) + seq![RowModel::Gap(12)] + offer_row(
        st,
        now,
    ) + tail(st, open)
}

// ---------------------------------------------------------------- building them

fn put_head(rows: &mut Vec<Row>, st: &Status, headline: bool, identity: bool, now: i64)
    requires
        schedule::clock(now),
    ensures
        ui::rows_of(final(rows)@) == ui::rows_of(old(rows)@) + head(*st, headline, identity, now),
{
    let ghost was = ui::rows_of(rows@);
    put(rows, Row::Header);
    put(rows, Row::Gap(10));
    if headline {
        put(rows, Row::Title { text: Words::Headline, role: condition_role(st.condition) });
    }
    if identity {
        put(rows, Row::Field { text: Words::Identity, role: Role::FlatSub });
    }
    if matches!(st.condition, Condition::Flaky | Condition::WillStop) {
        if let Some(t) = &st.ticket {
            put(
                rows,
                Row::Line {
                    text: Words::Said(
                        say_about(
                            Phrase::AccessEndsIn,
                            Slot::Duration,
                            Filler::Duration(t.remaining),
                        ),
                    ),
                    role: Role::Warn,
                },
            );
        }
    }
    if let Some(deadline) = st.grant_expiry {
        let left: i64 = days_left(deadline, now);
        let role = if left <= GRANT_DUE_SOON_SECS / 86_400 {
            Role::Warn
        } else {
            Role::Sub
        };
        put(
            rows,
            Row::Line {
                text: Words::Said(
                    say_about(Phrase::GrantExpiresIn, Slot::Days, Filler::Days(left)),
                ),
                role,
            },
        );
    }
    assert(ui::rows_of(rows@) =~= was + head(*st, headline, identity, now));
}

fn explained_blockers(st: &Status) -> (r: Vec<Blocker>)
    ensures
        r@ == explanations(*st),
{
    let ghost p = explained();
    let mut out: Vec<Blocker> = Vec::new();
    let mut i: usize = 0;
    proof {
        assert(st.blockers@.take(0) =~= Seq::empty());
        lists::filter_empty(p);
    }
    while i < st.blockers.len()
        invariant
            i <= st.blockers@.len(),
            p == explained(),
            out@ == st.blockers@.take(i as int).filter(p),
        decreases st.blockers@.len() - i,
    {
        let b = st.blockers[i];
        proof {
            assert(st.blockers@.take(i + 1) =~= st.blockers@.take(i as int).push(b));
            lists::filter_push(st.blockers@.take(i as int), b, p);
        }
        if b != Blocker::NoSupply {
            out.push(b);
        }
        i = i + 1;
    }
    assert(st.blockers@.take(i as int) =~= st.blockers@);
    out
}

fn put_explanation(rows: &mut Vec<Row>, st: &Status, lines: &Vec<Blocker>)
    requires
        lines@ == explanations(*st),
        lines@.len() < usize::MAX,
    ensures
        ui::rows_of(final(rows)@) == ui::rows_of(old(rows)@) + explanation(*st),
{
    let ghost was = ui::rows_of(rows@);
    let said = !st.message.is_empty();
    if lines.len() == 0 && !said {
        assert(ui::rows_of(rows@) =~= was + explanation(*st));
        return;
    }
    let beside: usize = if said {
        lines.len() + 1
    } else {
        lines.len()
    };
    put(rows, Row::Gap(6));
    put(rows, Row::Rule { role: rule_role(st), beside });
    let ghost opening = was + seq![
        RowModel::Gap(6),
        RowModel::Rule { role: present::rule_of(*st), beside },
    ];
    assert(ui::rows_of(rows@) =~= opening);
    assert(opening =~= opening + whys(lines@, 0));
    let mut i: usize = 0;
    while i < lines.len()
        invariant
            i <= lines@.len(),
            ui::rows_of(rows@) == opening + whys(lines@, i as int),
        decreases lines@.len() - i,
    {
        put(rows, Row::Explained { text: Words::Blocked(lines[i]), role: Role::Text });
        i = i + 1;
        assert(whys(lines@, i as int) =~= whys(lines@, i - 1).push(why(lines@[i - 1])));
        assert(ui::rows_of(rows@) =~= opening + whys(lines@, i as int));
    }
    if said {
        put(rows, Row::Explained { text: Words::Said(st.message.clone()), role: Role::Sub });
    }
    assert(ui::rows_of(rows@) =~= was + explanation(*st));
}

/// The actions with a button, the primary one first.
pub fn button_slots(st: &Status, now: i64) -> (r: Vec<Action>)
    requires
        schedule::clock(now),
    ensures
        r@ == slots(*st, now),
        r@.len() <= 2,
{
    let lines = explained_blockers(st);
    let offer = ranked(st, now);
    let mut out: Vec<Action> = Vec::new();
    if offer.len() > 0 {
        out.push(offer[0]);
    }
    if lists_action(&st.actions, Action::Cancel) {
        out.push(Action::Cancel);
    } else if (lines.len() > 0 || st.fault) && !st.message.is_empty() {
        // The slot is the log's.
    } else if offer.len() > 1 {
        out.push(offer[1]);
    }
    assert(out@ =~= slots(*st, now));
    out
}

fn is_offering_log(st: &Status, lines: &Vec<Blocker>) -> (r: bool)
    requires
        lines@ == explanations(*st),
    ensures
        r == offers_log(*st),
{
    !lists_action(&st.actions, Action::Cancel) && (lines.len() > 0 || st.fault)
        && !st.message.is_empty()
}

fn slot_buttons(st: &Status, acts: &Vec<Action>, log: bool) -> (r: Vec<Button>)
    requires
        acts@.len() <= 2,
    ensures
        ui::buttons_of(r@) == Seq::new(acts@.len(), |i: int| slot_button(*st, acts@[i], i)) + (
        if log {
            seq![log_button(acts@.len() as int)]
        } else {
            seq![]
        }),
{
    let mut out: Vec<Button> = Vec::new();
    let mut i: usize = 0;
    while i < acts.len()
        invariant
            i <= acts@.len() <= 2,
            out@.len() == i,
            forall|k: int| 0 <= k < i ==> (#[trigger] out@[k])@ == slot_button(*st, acts@[k], k),
        decreases acts@.len() - i,
    {
        let act = acts[i];
        let running = lists_action(&st.in_flight, act);
        out.push(
            Button {
                label: Words::Offer(act),
                id: CMD_ACTION_BASE + i as u16,
                enabled: !running,
                primary: i == 0 && !running,
                shield: shielded(act),
            },
        );
        i = i + 1;
    }
    if log {
        out.push(
            Button {
                label: words(Phrase::ActOpenLog),
                id: CMD_OPEN_LOG,
                enabled: true,
                primary: acts.len() == 0,
                shield: false,
            },
        );
    }
    assert(ui::buttons_of(out@) =~= Seq::new(
        acts@.len(),
        |i: int| slot_button(*st, acts@[i], i),
    ) + (if log {
        seq![log_button(acts@.len() as int)]
    } else {
        seq![]
    }));
    out
}

fn put_offer(rows: &mut Vec<Row>, st: &Status, lines: &Vec<Blocker>, now: i64)
    requires
        schedule::clock(now),
        lines@ == explanations(*st),
    ensures
        ui::rows_of(final(rows)@) == ui::rows_of(old(rows)@) + offer_row(*st, now),
{
    let ghost was = ui::rows_of(rows@);
    let acts = button_slots(st, now);
    let log = is_offering_log(st, lines);
    let all = slot_buttons(st, &acts, log);
    assert(ui::buttons_of(all@) =~= buttons(*st, now));
    if all.len() == 0 {
        put(rows, Row::Wrap { text: words(Phrase::NoAction), role: Role::Sub });
    } else {
        put(rows, Row::Buttons { buttons: all, fit: Fit::Equal });
    }
    assert(ui::rows_of(rows@) =~= was + offer_row(*st, now));
}

fn put_detail(rows: &mut Vec<Row>, label: Phrase, value: Sentence)
    ensures
        ui::rows_of(final(rows)@) == ui::rows_of(old(rows)@).push(detail(label, value@)),
{
    put(rows, Row::Detail { label: words(label), value: Words::Said(value) });
}

fn as_it_is(s: &str) -> (r: Sentence)
    ensures
        r@ == verbatim(s@),
{
    say_about(Phrase::Verbatim, Slot::Detail, text_value(s))
}

fn put_meter(rows: &mut Vec<Row>, st: &Status)
    ensures
        ui::rows_of(final(rows)@) == ui::rows_of(old(rows)@) + meter(*st),
{
    let ghost was = ui::rows_of(rows@);
    if let Some(t) = &st.ticket {
        let role = if matches!(st.condition, Condition::Working) {
            Role::Good
        } else {
            Role::Warn
        };
        put(
            rows,
            Row::Meter {
                text: words(Phrase::MeterLabel),
                role,
                remaining: t.remaining,
                lifetime: t.lifetime,
            },
        );
        put(rows, Row::Gap(8));
    }
    assert(ui::rows_of(rows@) =~= was + meter(*st));
}

fn put_subject(rows: &mut Vec<Row>, st: &Status)
    ensures
        ui::rows_of(final(rows)@) == ui::rows_of(old(rows)@) + subject(*st),
{
    let ghost was = ui::rows_of(rows@);
    put_detail(rows, Phrase::DRealm, as_it_is(st.realm.as_str()));
    if !st.source.as_str().is_empty() {
        put_detail(rows, Phrase::DSource, as_it_is(st.source.as_str()));
    }
    if let Some(t) = &st.ticket {
        let value = if t.renewable {
            Phrase::DTicketValue
        } else {
            Phrase::DTicketValueNorenew
        };
        put_detail(rows, Phrase::DTicket, say_about(value, Slot::Time, Filler::Time(t.end)));
    }
    assert(ui::rows_of(rows@) =~= was + subject(*st));
}

fn put_outlook(rows: &mut Vec<Row>, st: &Status)
    ensures
        ui::rows_of(final(rows)@) == ui::rows_of(old(rows)@) + outlook(*st),
{
    let ghost was = ui::rows_of(rows@);
    let supply = match st.supply {
        Supply::Grant => Phrase::DSupplyGrant,
        Supply::WindowsSignIn => Phrase::DSupplyWam,
        Supply::BrowserSignIn => Phrase::DSupplyBrowser,
        Supply::Nothing => Phrase::DSupplyNone,
    };
    put_detail(rows, Phrase::DSupply, say(supply));
    if let Some(next) = st.next_attempt_at_earliest {
        put_detail(
            rows,
            Phrase::DNext,
            say_about(Phrase::Verbatim, Slot::Detail, Filler::Time(next)),
        );
    }
    assert(ui::rows_of(rows@) =~= was + outlook(*st));
}

fn put_details(rows: &mut Vec<Row>, st: &Status)
    ensures
        ui::rows_of(final(rows)@) == ui::rows_of(old(rows)@) + details(*st),
{
    let ghost was = ui::rows_of(rows@);
    put_meter(rows, st);
    put_subject(rows, st);
    put_outlook(rows, st);
    assert(ui::rows_of(rows@) =~= was + details(*st));
}

fn put_tail(rows: &mut Vec<Row>, st: &Status, open: bool)
    ensures
        ui::rows_of(final(rows)@) == ui::rows_of(old(rows)@) + tail(*st, open),
{
    let ghost was = ui::rows_of(rows@);
    // A shape, not a word: the idiom for *something is running*, owing no string in
    // any language.
    if st.in_flight.len() > 0 {
        put(rows, Row::Gap(6));
        put(rows, Row::Marquee);
    }
    // Every row of the drawer would otherwise describe a ticket nothing can use.
    if st.usable {
        put(rows, Row::Gap(10));
        put(
            rows,
            Row::Disclosure { text: words(Phrase::DetailsHeading), open, id: CMD_TOGGLE_DETAILS },
        );
        if open {
            put(rows, Row::Gap(4));
            put_details(rows, st);
        }
    }
    assert(ui::rows_of(rows@) =~= was + tail(*st, open));
}

/// The flyout's rows for the current status. `headline` and `identity` say whether
/// the product's copy has either for it, and `open` whether the drawer is.
pub fn rebuild(st: &Status, headline: bool, identity: bool, open: bool, now: i64) -> (r: Vec<Row>)
    requires
        schedule::clock(now),
        st.blockers@.len() < usize::MAX,
    ensures
        ui::rows_of(r@) == flyout(*st, headline, identity, open, now),
{
    let mut rows: Vec<Row> = Vec::new();
    assert(ui::rows_of(rows@) =~= Seq::empty());
    let lines = explained_blockers(st);
    proof {
        st.blockers@.lemma_filter_len(explained());
    }
    put_head(&mut rows, st, headline, identity, now);
    put_explanation(&mut rows, st, &lines);
    put(&mut rows, Row::Gap(12));
    put_offer(&mut rows, st, &lines, now);
    put_tail(&mut rows, st, open);
    assert(ui::rows_of(rows@) =~= flyout(*st, headline, identity, open, now));
    rows
}

// ----------------------------------------------------------------- the commands

/// What a command of the flyout asks for.
#[derive(Clone, Copy, PartialEq, Eq, Debug, Structural)]
pub enum Command {
    Hide,
    OpenLog,
    OpenSettings,
    ToggleDetails,
    Start(Action),
    Nothing,
}

/// What a command id stands for, given the actions that have a button.
pub open spec fn command_of(id: u16, acts: Seq<Action>) -> Command {
    if id == IDCANCEL {
        Command::Hide
    } else if id == CMD_OPEN_LOG {
        Command::OpenLog
    } else if id == CMD_SETTINGS_GEAR {
        Command::OpenSettings
    } else if id == CMD_TOGGLE_DETAILS {
        Command::ToggleDetails
    } else if CMD_ACTION_BASE <= id < CMD_ACTION_BASE + acts.len() {
        Command::Start(acts[id - CMD_ACTION_BASE])
    } else {
        Command::Nothing
    }
}

/// A command id below the action base, or past the buttons, is not an action.
pub fn on_command(id: u16, acts: &Vec<Action>) -> (r: Command)
    ensures
        r == command_of(id, acts@),
{
    if id == IDCANCEL {
        return Command::Hide;
    }
    if id == CMD_OPEN_LOG {
        return Command::OpenLog;
    }
    if id == CMD_SETTINGS_GEAR {
        return Command::OpenSettings;
    }
    if id == CMD_TOGGLE_DETAILS {
        return Command::ToggleDetails;
    }
    match id.checked_sub(CMD_ACTION_BASE) {
        Some(i) => if (i as usize) < acts.len() {
            Command::Start(acts[i as usize])
        } else {
            Command::Nothing
        },
        None => Command::Nothing,
    }
}

/// Whether a command is one of a button. A control notification carries its window in
/// `lparam` and its code in the high word, so an edit's update is a command too -- and
/// the dialog manager's Escape has no window, which is how it stays reachable.
pub fn takes_command(wparam: usize, lparam: usize) -> (r: bool)
    ensures
        r == (lparam == 0 || wparam as int / 0x1_0000 % 0x1_0000 == 0),
{
    lparam == 0 || hiword(wparam) == BN_CLICKED
}

/// What a click on the tray icon does to the flyout.
#[derive(Clone, Copy, PartialEq, Eq, Debug, Structural)]
pub enum Toggle {
    Hide,
    Show,
    /// This was the click that closed it.
    Stay,
}

/// A click on the tray icon. `hidden_for` is how long ago the flyout hid itself
/// because it lost activation, in milliseconds: a tray click deactivates it *before*
/// the shell delivers the click.
pub fn toggle(visible: bool, hidden_for: Option<u64>) -> (r: Toggle)
    ensures
        r == (if visible {
            Toggle::Hide
        } else {
            match hidden_for {
                Some(ms) if ms < REOPEN_SUPPRESSION_MS => Toggle::Stay,
                _ => Toggle::Show,
            }
        }),
{
    if visible {
        return Toggle::Hide;
    }
    match hidden_for {
        Some(ms) => if ms >= REOPEN_SUPPRESSION_MS {
            Toggle::Show
        } else {
            Toggle::Stay
        },
        None => Toggle::Show,
    }
}

/// Whether losing activation hides the flyout. Not while a dialog of our own has the
/// foreground: the confirmation it opened came from a button in here.
pub fn hides_on_blur(inactive: bool, modal_open: bool) -> (r: bool)
    ensures
        r == (inactive && !modal_open),
{
    inactive && !modal_open
}

// ------------------------------------------------------------------------ laws

/// Every action with a button is on offer, there are at most two buttons, and the
/// command of a button is its action's.
pub proof fn law_a_button_is_its_action(st: Status, now: i64)
    ensures
        buttons(st, now).len() <= 2,
        slots(st, now).len() <= 2,
        forall|i: int|
            0 <= i < slots(st, now).len() ==> {
                &&& st.actions@.contains(#[trigger] slots(st, now)[i])
                &&& command_of(buttons(st, now)[i].id, slots(st, now)) == Command::Start(
                    slots(st, now)[i],
                )
            },
{
    let offer = present::ranking(st, now);
    if offer.len() > 0 {
        assert(offer.contains(offer[0]));
        present::law_the_front_page_offers_what_is_on_offer(st, now, offer[0]);
    }
    if offer.len() > 1 {
        assert(offer.contains(offer[1]));
        present::law_the_front_page_offers_what_is_on_offer(st, now, offer[1]);
    }
}

/// While something cancellable runs, its Cancel has a button.
pub proof fn law_what_can_be_cancelled_can_be_reached(st: Status, now: i64)
    requires
        st.actions@.contains(Action::Cancel),
    ensures
        slots(st, now).contains(Action::Cancel),
        !offers_log(st),
{
    assert(slots(st, now).last() == Action::Cancel);
}

/// The slots are the first two that are ranked; while something can be cancelled the second
/// is that, and where there is a log worth reading it gives way to it.
pub proof fn law_what_stands_in_the_slots(st: Status, now: i64)
    ensures
        ({
            let rank = present::ranking(st, now);
            let s = slots(st, now);
            let b = buttons(st, now);
            let cancel = st.actions@.contains(Action::Cancel);
            &&& rank.len() > 0 ==> s.len() > 0 && s[0] == rank[0]
            &&& cancel ==> s.last() == Action::Cancel && s.len() == (if rank.len() > 0 {
                2int
            } else {
                1int
            })
            &&& !cancel && !offers_log(st) && rank.len() >= 2 ==> s.len() == 2 && s[1] == rank[1]
            &&& !cancel && (offers_log(st) || rank.len() < 2) ==> s.len() == (if rank.len() > 0 {
                1int
            } else {
                0int
            })
            &&& offers_log(st) ==> b.len() == s.len() + 1 && b.last().id == 120
                && b.last().enabled && command_of(b.last().id, s) == Command::OpenLog
            &&& !offers_log(st) ==> b.len() == s.len()
        }),
{
}

/// A button is dead while its operation runs, the first that is alive leads, and one that
/// will ask for an administrator carries the shield.
pub proof fn law_what_a_slots_button_is(st: Status, now: i64, i: int)
    requires
        0 <= i < slots(st, now).len(),
    ensures
        ({
            let act = slots(st, now)[i];
            let b = buttons(st, now)[i];
            &&& b.label == WordsModel::Offer(act)
            &&& b.enabled <==> !st.in_flight@.contains(act)
            &&& b.primary <==> i == 0 && !st.in_flight@.contains(act)
            &&& b.shield <==> act == Action::Enroll || act == Action::Reenroll || act
                == Action::Unenroll || act == Action::RestartWorkstation
        }),
{
}

/// The log is offered where something is explained or wrong, somebody said what, and nothing
/// is there to cancel.
pub proof fn law_when_the_log_is_offered(st: Status)
    ensures
        offers_log(st) <==> !st.actions@.contains(Action::Cancel) && !(st.message@.phrase
            is Silence) && (st.fault || exists|i: int|
            0 <= i < st.blockers@.len() && #[trigger] st.blockers@[i] != Blocker::NoSupply),
{
    let e = explanations(st);
    if e.len() > 0 {
        lists::filter_holds(st.blockers@, explained(), e[0]);
        assert(e.contains(e[0]));
        let i = choose|i: int| 0 <= i < st.blockers@.len() && st.blockers@[i] == e[0];
        assert(st.blockers@[i] != Blocker::NoSupply);
    }
    if exists|i: int|
        0 <= i < st.blockers@.len() && #[trigger] st.blockers@[i] != Blocker::NoSupply {
        let i = choose|i: int|
            0 <= i < st.blockers@.len() && #[trigger] st.blockers@[i] != Blocker::NoSupply;
        lists::filter_holds(st.blockers@, explained(), st.blockers@[i]);
        assert(e.contains(st.blockers@[i]));
    }
}

/// What a press means: each of the four fixed numbers its own, and the numbers of the slots
/// what stands in them.
pub proof fn law_what_a_press_means(acts: Seq<Action>, id: u16)
    requires
        acts.len() <= 2,
    ensures
        command_of(2, acts) == Command::Hide,
        command_of(120, acts) == Command::OpenLog,
        command_of(121, acts) == Command::OpenSettings,
        command_of(122, acts) == Command::ToggleDetails,
        100 <= id < 100 + acts.len() ==> command_of(id, acts) == Command::Start(acts[id - 100]),
        id != 2 && id != 120 && id != 121 && id != 122 && !(100 <= id < 100 + acts.len())
            ==> command_of(id, acts) == Command::Nothing,
{
}

/// The ticket's end is said where it is about to matter, and how long it is until then; the
/// grant's whenever there is one, in warning within a week.
pub proof fn law_what_deadlines_are_said(st: Status, now: i64)
    ensures
        ticket_deadline(st).len() > 0 <==> (st.condition == Condition::Flaky || st.condition
            == Condition::WillStop) && st.ticket is Some,
        ticket_deadline(st).len() <= 1,
        st.ticket matches Some(t) ==> (ticket_deadline(st).len() > 0 ==> ticket_deadline(st)[0] == (
        RowModel::Line {
            text: WordsModel::Said(
                sentence::about(
                    Phrase::AccessEndsIn,
                    Slot::Duration,
                    FillerModel::Duration(t.remaining),
                ),
            ),
            role: Role::Warn,
        })),
        st.grant_expiry is None ==> grant_deadline(st, now).len() == 0,
        st.grant_expiry matches Some(t) ==> grant_deadline(st, now).len() == 1 && grant_deadline(
            st,
            now,
        )[0] == (RowModel::Line {
            text: WordsModel::Said(
                sentence::about(
                    Phrase::GrantExpiresIn,
                    Slot::Days,
                    FillerModel::Days(schedule::days_to(t as int, now as int) as i64),
                ),
            ),
            role: if schedule::days_to(t as int, now as int) <= 7 {
                Role::Warn
            } else {
                Role::Sub
            },
        }),
{
}

/// The details say how long and how much of it, the realm and its source, the ticket's end,
/// what stands behind the next renewal, and when that is tried.
pub proof fn law_what_the_details_say(st: Status)
    ensures
        supply_phrase(Supply::Grant) == Phrase::DSupplyGrant,
        supply_phrase(Supply::WindowsSignIn) == Phrase::DSupplyWam,
        supply_phrase(Supply::BrowserSignIn) == Phrase::DSupplyBrowser,
        supply_phrase(Supply::Nothing) == Phrase::DSupplyNone,
        subject(st)[0] == detail(
            Phrase::DRealm,
            sentence::about(Phrase::Verbatim, Slot::Detail, FillerModel::Text(st.realm@)),
        ),
        st.source@.len() > 0 ==> subject(st)[1] == detail(
            Phrase::DSource,
            sentence::about(Phrase::Verbatim, Slot::Detail, FillerModel::Text(st.source@)),
        ),
        st.ticket matches Some(t) ==> subject(st).last() == detail(
            Phrase::DTicket,
            sentence::about(
                if t.renewable {
                    Phrase::DTicketValue
                } else {
                    Phrase::DTicketValueNorenew
                },
                Slot::Time,
                FillerModel::Time(t.end),
            ),
        ),
        subject(st).len() == 1 + (if st.source@.len() > 0 {
            1int
        } else {
            0
        }) + (if st.ticket is Some {
            1int
        } else {
            0
        }),
        outlook(st)[0] == detail(Phrase::DSupply, sentence::plain(supply_phrase(st.supply))),
        st.next_attempt_at_earliest matches Some(next) ==> outlook(st).len() == 2 && outlook(st)[1]
            == detail(
            Phrase::DNext,
            sentence::about(Phrase::Verbatim, Slot::Detail, FillerModel::Time(next)),
        ),
        st.next_attempt_at_earliest is None ==> outlook(st).len() == 1,
        st.ticket is None ==> meter(st).len() == 0,
        st.ticket matches Some(t) ==> meter(st).len() == 2 && meter(st)[0] == (RowModel::Meter {
            text: words::phrased(Phrase::MeterLabel),
            role: if st.condition == Condition::Working {
                Role::Good
            } else {
                Role::Warn
            },
            remaining: t.remaining,
            lifetime: t.lifetime,
        }),
{
}

/// Everything that is missing is explained, in its order, except what only the renewal
/// lacks; whatever was said stands below it.
pub proof fn law_what_is_explained(st: Status)
    ensures
        ({
            let e = explanation(st);
            let lines = explanations(st);
            let said = !(st.message@.phrase is Silence);
            &&& e.len() == 0 <==> lines.len() == 0 && !said
            &&& e.len() > 0 ==> e.len() == lines.len() + 2 + (if said {
                1int
            } else {
                0
            })
            &&& e.len() > 0 ==> (e[1] matches RowModel::Rule { role, .. } && role
                == present::rule_of(st))
            &&& forall|i: int|
                0 <= i < lines.len() ==> #[trigger] lines[i] != Blocker::NoSupply && e[i + 2] == (
                RowModel::Explained { text: WordsModel::Blocked(lines[i]), role: Role::Text })
            &&& said ==> e.last() == (RowModel::Explained {
                text: WordsModel::Said(st.message@),
                role: Role::Sub,
            })
        }),
{
    let lines = explanations(st);
    assert forall|i: int| 0 <= i < lines.len() implies #[trigger] lines[i] != Blocker::NoSupply by {
        lists::filter_holds(st.blockers@, explained(), lines[i]);
        assert(lines.contains(lines[i]));
    }
}

/// Details are behind a fold where a ticket could be spent, and a moving bar shows while
/// anything runs; a machine with nothing to press says so.
pub proof fn law_what_else_a_flyout_shows(st: Status, open: bool, now: i64)
    ensures
        !st.usable && st.in_flight@.len() == 0 ==> tail(st, open).len() == 0,
        !st.usable && st.in_flight@.len() > 0 ==> tail(st, open).len() == 2 && tail(st, open)[1]
            == RowModel::Marquee,
        st.usable && !open ==> tail(st, open).last() == (RowModel::Disclosure {
            text: words::phrased(Phrase::DetailsHeading),
            open: false,
            id: 122,
        }),
        st.usable && open ==> tail(st, open).skip(
            tail(st, open).len() - details(st).len(),
        ) == details(st),
        buttons(st, now).len() == 0 ==> offer_row(st, now) == seq![
            RowModel::Wrap { text: words::phrased(Phrase::NoAction), role: Role::Sub },
        ],
        buttons(st, now).len() > 0 ==> offer_row(st, now).len() == 1 && (offer_row(st, now)[0]
            matches RowModel::Buttons { buttons: b, .. } && b == buttons(st, now)),
{
    if st.usable && open {
        let t = tail(st, open);
        assert(t.skip(t.len() - details(st).len()) =~= details(st));
    }
}

/// A flyout has its head, its explanation, its buttons and its tail, in that order.
pub proof fn law_how_a_flyout_is_laid_out(
    st: Status,
    headline: bool,
    identity: bool,
    open: bool,
    now: i64,
)
    ensures
        ({
            let f = flyout(st, headline, identity, open, now);
            let h = head(st, headline, identity, now);
            let e = explanation(st);
            let n = h.len() as int + e.len();
            &&& f.take(h.len() as int) == h
            &&& f.subrange(h.len() as int, n) == e
            &&& f[n] == RowModel::Gap(12)
            &&& f[n + 1] == offer_row(st, now)[0]
            &&& f.skip(n + 2) == tail(st, open)
            &&& h[0] == RowModel::Header
            &&& headline ==> h[2] == (RowModel::Title {
                text: WordsModel::Headline,
                role: present::role_of(st.condition),
            })
            &&& identity ==> h[if headline {
                3int
            } else {
                2int
            }] == (RowModel::Field { text: WordsModel::Identity, role: Role::FlatSub })
            &&& h.len() == 2 + (if headline {
                1int
            } else {
                0
            }) + (if identity {
                1int
            } else {
                0
            }) + ticket_deadline(st).len() + grant_deadline(st, now).len()
        }),
{
    let f = flyout(st, headline, identity, open, now);
    let h = head(st, headline, identity, now);
    let e = explanation(st);
    let n = h.len() as int + e.len();
    assert(offer_row(st, now).len() == 1);
    assert(f.take(h.len() as int) =~= h);
    assert(f.subrange(h.len() as int, n) =~= e);
    assert(f.skip(n + 2) =~= tail(st, open));
}

} // verus!
