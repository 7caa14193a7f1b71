//! Settings: three tabs, sorted by subject, routine to rare, destructive last.
//!
//! ```text
//! ┌ Basic ┬ Advanced ┬ About ┐
//! │ Connection      broker address · sub or managed cue · [Save]
//! │ Sign-in         ☑ Start at login
//! │                 ☑ Use Windows sign-in when possible
//! ┌ Advanced
//! │ Authorization   state line · "Authorize this device for" · [Authorize…] [Remove…]
//! │ Windows setup   enrollment state line · 🛡[Set up again…] 🛡[Forget {realm}…]
//! │ Troubleshoot    [Open log folder]
//! ┌ About           logo · name · version · copyright · license · URL
//! ```
//!
//! **Instant-apply, and no OK/Cancel.** The one-shots are confirmed in the parent
//! and fire on click, so a Cancel beside them could not undo any of them -- it would
//! teach a rule the same window immediately breaks.
//!
//! **The two text fields keep an explicit Save**, disabled until changed. They cannot
//! commit on blur, because both are consequential: a broker change purges the realm,
//! gives up the grant and drops the refresh token, so a half-typed address landing on
//! focus-loss would wipe the session; and the target field writes what this device is
//! expected to be working as.

use super::sys;
use super::theme::Palette;
use super::ui;
use super::ui::{put, Button, ButtonModel, Fit, Role, Row, RowModel};
use crate::agent;
use crate::agent::commands;
use crate::agent::commands::{apply_settings, Applied, SettingsView};
use crate::agent::schedule;
use crate::agent::status::Status;
use crate::agent::Agent;
use crate::describe::Action;
use crate::sentence;
use crate::sentence::{say_about, text_value, FillerModel, Phrase, SentenceModel, Slot};
use crate::text;
use crate::text::same;
use crate::words;
use crate::words::{words, Words, WordsModel};
use vstd::prelude::*;
use vstd::string::*;

verus! {

pub const WEBSITE: &'static str = "https://kerbridge.org/";

/// Shown as it is on the About tab, every locale.
pub const COPYRIGHT: &'static str = "© 2026 Jarno Elonen";

// Command ids.
pub const CMD_SAVE: u16 = 400;

pub const CMD_AUTOSTART: u16 = 401;

pub const CMD_WAM: u16 = 402;

pub const CMD_BROKER: u16 = 403;

pub const CMD_GRANT_FOR: u16 = 404;

pub const CMD_AUTHORIZE: u16 = 405;

pub const CMD_GIVE_UP: u16 = 406;

pub const CMD_REENROLL: u16 = 407;

pub const CMD_UNENROLL: u16 = 408;

pub const CMD_OPEN_LOG: u16 = 409;

/// A button was clicked, in the high word of a command.
pub const BN_CLICKED: u16 = 0;

/// A field was edited, in the high word of a command from one.
pub const EN_CHANGE: u16 = 0x0300;

/// The tab labels, by position.
pub open spec fn tab_phrase(i: int) -> Phrase {
    if i == 0 {
        Phrase::TabBasic
    } else if i == 1 {
        Phrase::TabAdvanced
    } else {
        Phrase::TabAbout
    }
}

pub fn tab_label(i: usize) -> (r: Phrase)
    ensures
        r == tab_phrase(i as int),
{
    match i {
        0 => Phrase::TabBasic,
        1 => Phrase::TabAdvanced,
        _ => Phrase::TabAbout,
    }
}

/// How a tab item is painted: its fill and its ink. Selected and hot are ours to
/// draw, because the tab control takes no dark theme.
pub fn tab_paint(selected: bool, hot: bool, p: &Palette) -> (r: (u32, u32))
    ensures
        r.0 == (if selected {
            p.bg
        } else if hot {
            p.surface
        } else {
            p.sep
        }),
        r.1 == (if selected {
            p.text
        } else {
            p.subtext
        }),
{
    let fill: u32 = if selected {
        p.bg
    } else if hot {
        p.surface
    } else {
        p.sep
    };
    let ink: u32 = if selected {
        p.text
    } else {
        p.subtext
    };
    (fill, ink)
}

/// The tabs to paint again when the pointer moved from one to another: only those two,
/// and none where it stayed. A negative index is "no tab".
pub fn hot_moved(was: i32, over: i32) -> (r: Vec<i32>)
    ensures
        was == over ==> r@.len() == 0,
        was != over ==> r@ == (if was >= 0 {
            seq![was]
        } else {
            seq![]
        }) + (if over >= 0 {
            seq![over]
        } else {
            seq![]
        }),
{
    let mut out: Vec<i32> = Vec::new();
    if was != over {
        if was >= 0 {
            out.push(was);
        }
        if over >= 0 {
            out.push(over);
        }
    }
    out
}

// -------------------------------------------------------------------- the pages

/// A line of text in subtext.
pub open spec fn subtext(p: Phrase) -> RowModel {
    RowModel::Wrap { text: words::phrased(p), role: Role::Sub }
}

/// A section's heading with the gap under it.
pub open spec fn section(p: Phrase) -> Seq<RowModel> {
    seq![RowModel::Heading { text: words::phrased(p) }, RowModel::Gap(4)]
}

/// Connection.
pub open spec fn connection(view: SettingsView) -> Seq<RowModel> {
    section(Phrase::SettingsSectionConnection) + seq![
        RowModel::Line { text: words::phrased(Phrase::SettingsBrokerLabel), role: Role::Text },
        subtext(
            if view.broker_locked {
                Phrase::SettingsBrokerManaged
            } else {
                Phrase::SettingsBrokerSub
            },
        ),
        RowModel::Gap(4),
        RowModel::Edit {
            held: view.broker_url@,
            cue: "kerbridge.example.site"@,
            editable: !view.broker_locked,
            id: CMD_BROKER,
        },
        RowModel::Gap(8),
        RowModel::Buttons {
            buttons: seq![
                ButtonModel {
                    label: words::phrased(Phrase::SettingsSave),
                    id: CMD_SAVE,
                    enabled: false,
                    primary: false,
                    shield: false,
                },
            ],
            fit: Fit::Right { width: 96 },
        },
    ]
}

/// Sign-in.
pub open spec fn signing_in(view: SettingsView) -> Seq<RowModel> {
    section(Phrase::SettingsSectionSignin) + seq![
        RowModel::Checkbox {
            text: words::phrased(Phrase::SettingsStartupLabel),
            id: CMD_AUTOSTART,
            checked: view.autostart,
            enabled: !view.autostart_locked,
        },
    ] + (if view.autostart_locked {
        seq![subtext(Phrase::SettingsStartupManaged)]
    } else {
        seq![]
    }) + seq![
        RowModel::Gap(6),
        RowModel::Checkbox {
            text: words::phrased(Phrase::SettingsWamLabel),
            id: CMD_WAM,
            checked: view.windows_sign_in,
            enabled: !view.windows_sign_in_locked,
        },
        subtext(Phrase::SettingsWamSub),
    ]
}

/// The Basic tab.
pub open spec fn basic(view: SettingsView) -> Seq<RowModel> {
    connection(view) + seq![RowModel::Separator] + signing_in(view)
}

/// An ordinary button.
pub open spec fn plain_button(label: WordsModel, id: u16, shield: bool) -> ButtonModel {
    ButtonModel { label, id, enabled: true, primary: false, shield }
}

/// What the device was authorized for. Past tense, and from the held grant, so it
/// cannot be edited into a lie.
pub open spec fn grant_state(st: Status) -> Seq<RowModel> {
    if st.principal@.len() > 0 && st.holds_grant {
        seq![
            RowModel::Wrap {
                text: WordsModel::Said(
                    sentence::about(
                        Phrase::SettingsGrantState,
                        Slot::Account,
                        FillerModel::Text(st.principal@),
                    ),
                ),
                role: Role::Text,
            },
            RowModel::Gap(6),
        ]
    } else {
        seq![]
    }
}

/// The buttons of an authorization.
pub open spec fn grant_buttons(st: Status) -> Seq<ButtonModel> {
    seq![
        plain_button(
            words::phrased(
                if st.holds_grant {
                    Phrase::ActCreateGrantAgain
                } else {
                    Phrase::ActCreateGrant
                },
            ),
            CMD_AUTHORIZE,
            false,
        ),
    ] + (if st.holds_grant {
        seq![plain_button(words::phrased(Phrase::ActGiveUpGrant), CMD_GIVE_UP, false)]
    } else {
        seq![]
    })
}

/// Authorization. Absent *silently* where the deployment has the feature off: it
/// does not want a row explaining what its users cannot have.
pub open spec fn authorization(view: SettingsView, st: Status) -> Seq<RowModel> {
    if view.grant_days == 0 {
        seq![]
    } else {
        section(Phrase::SettingsSectionAuthorization) + grant_state(st) + seq![
            RowModel::Line { text: words::phrased(Phrase::SettingsGrantForLabel), role: Role::Text },
            subtext(
                if view.grant_for_locked {
                    Phrase::SettingsBrokerManaged
                } else {
                    Phrase::SettingsGrantForSub
                },
            ),
            RowModel::Gap(4),
            RowModel::Edit {
                held: view.grant_for@,
                cue: Seq::empty(),
                editable: !view.grant_for_locked,
                id: CMD_GRANT_FOR,
            },
            RowModel::Gap(8),
            RowModel::Buttons { buttons: grant_buttons(st), fit: Fit::Measured { least: 150 } },
            RowModel::Separator,
        ]
    }
}

/// A sentence about the realm.
pub open spec fn of_realm(p: Phrase, realm: Seq<char>) -> SentenceModel {
    sentence::about(p, Slot::Realm, FillerModel::Text(realm))
}

/// Windows setup. Not enrolled, it keeps its state line and loses its buttons.
pub open spec fn windows_setup(view: SettingsView, st: Status) -> Seq<RowModel> {
    section(Phrase::SettingsSectionWindows) + seq![
        RowModel::Wrap {
            text: WordsModel::Said(
                of_realm(
                    if st.usable {
                        Phrase::SettingsEnrolled
                    } else {
                        Phrase::SettingsNotEnrolled
                    },
                    view.realm@,
                ),
            ),
            role: Role::Text,
        },
    ] + (if st.usable {
        seq![
            RowModel::Gap(8),
            RowModel::Buttons {
                buttons: seq![
                    plain_button(words::phrased(Phrase::ActReenroll), CMD_REENROLL, true),
                    plain_button(
                        WordsModel::Said(of_realm(Phrase::ActUnenroll, view.realm@)),
                        CMD_UNENROLL,
                        true,
                    ),
                ],
                fit: Fit::Measured { least: 0 },
            },
        ]
    } else {
        seq![]
    })
}

/// Troubleshooting: always there, because the log is what someone reaches for when
/// there is no realm.
pub open spec fn troubleshooting() -> Seq<RowModel> {
    section(Phrase::SettingsSectionTroubleshoot) + seq![
        subtext(Phrase::SettingsTroubleshootSub),
        RowModel::Gap(8),
        RowModel::Buttons {
            buttons: seq![plain_button(words::phrased(Phrase::ActOpenLog), CMD_OPEN_LOG, false)],
            fit: Fit::Measured { least: 160 },
        },
    ]
}

/// Authorization and Windows setup, both of which name a realm -- or, before there
/// is one, the line that explains their absence.
pub open spec fn realm_sections(view: SettingsView, st: Status) -> Seq<RowModel> {
    if view.realm@.len() == 0 {
        seq![subtext(Phrase::SettingsGate)]
    } else {
        authorization(view, st) + windows_setup(view, st)
    }
}

/// The Advanced tab.
pub open spec fn advanced(view: SettingsView, st: Status) -> Seq<RowModel> {
    realm_sections(view, st) + seq![RowModel::Separator] + troubleshooting()
}

/// A text that needs no translation.
pub open spec fn verbatim(s: Seq<char>) -> WordsModel {
    WordsModel::Said(sentence::about(Phrase::Verbatim, Slot::Detail, FillerModel::Text(s)))
}

/// The About tab.
pub open spec fn about() -> Seq<RowModel> {
    seq![
        RowModel::About,
        RowModel::Gap(14),
        RowModel::Line { text: verbatim(COPYRIGHT@), role: Role::Text },
        RowModel::Gap(8),
        subtext(Phrase::AboutLicense),
        RowModel::Gap(8),
        RowModel::Wrap { text: verbatim(WEBSITE@), role: Role::Sub },
    ]
}

// ---------------------------------------------------------------- building them

/// Rows added under others.
pub open spec fn added(before: Seq<Row>, after: Seq<Row>, rows: Seq<RowModel>) -> bool {
    ui::rows_of(after) == ui::rows_of(before) + rows
}

fn put_sub(rows: &mut Vec<Row>, p: Phrase)
    ensures
        ui::rows_of(final(rows)@) == ui::rows_of(old(rows)@).push(subtext(p)),
{
    put(rows, Row::Wrap { text: words(p), role: Role::Sub });
}

fn put_section(rows: &mut Vec<Row>, p: Phrase)
    ensures
        added(old(rows)@, final(rows)@, section(p)),
{
    let ghost was = ui::rows_of(rows@);
    put(rows, Row::Heading { text: words(p) });
    put(rows, Row::Gap(4));
    assert(ui::rows_of(rows@) =~= was + section(p));
}

fn button(label: Words, id: u16, shield: bool) -> (r: Button)
    ensures
        r@ == plain_button(label@, id, shield),
{
    Button { label, id, enabled: true, primary: false, shield }
}

fn put_connection(rows: &mut Vec<Row>, view: &SettingsView)
    ensures
        added(old(rows)@, final(rows)@, connection(*view)),
{
    let ghost was = ui::rows_of(rows@);
    put_section(rows, Phrase::SettingsSectionConnection);
    put(rows, Row::Line { text: words(Phrase::SettingsBrokerLabel), role: Role::Text });
    put_sub(
        rows,
        if view.broker_locked {
            Phrase::SettingsBrokerManaged
        } else {
            Phrase::SettingsBrokerSub
        },
    );
    put(rows, Row::Gap(4));
    put(
        rows,
        Row::Edit {
            held: view.broker_url.clone(),
            // Bare, like what the user should type: https:// is prepended on save.
            cue: "kerbridge.example.site".to_owned(),
            editable: !view.broker_locked,
            id: CMD_BROKER,
        },
    );
    put(rows, Row::Gap(8));
    let save = Button {
        label: words(Phrase::SettingsSave),
        id: CMD_SAVE,
        enabled: false,
        primary: false,
        shield: false,
    };
    let buttons: Vec<Button> = vec![save];
    assert(ui::buttons_of(buttons@) =~= seq![save@]);
    put(rows, Row::Buttons { buttons, fit: Fit::Right { width: 96 } });
    assert(ui::rows_of(rows@) =~= was + connection(*view));
}

fn put_signing_in(rows: &mut Vec<Row>, view: &SettingsView)
    ensures
        added(old(rows)@, final(rows)@, signing_in(*view)),
{
    let ghost was = ui::rows_of(rows@);
    put_section(rows, Phrase::SettingsSectionSignin);
    put(
        rows,
        Row::Checkbox {
            text: words(Phrase::SettingsStartupLabel),
            id: CMD_AUTOSTART,
            checked: view.autostart,
            enabled: !view.autostart_locked,
        },
    );
    if view.autostart_locked {
        put_sub(rows, Phrase::SettingsStartupManaged);
    }
    put(rows, Row::Gap(6));
    put(
        rows,
        Row::Checkbox {
            text: words(Phrase::SettingsWamLabel),
            id: CMD_WAM,
            checked: view.windows_sign_in,
            enabled: !view.windows_sign_in_locked,
        },
    );
    put_sub(rows, Phrase::SettingsWamSub);
    assert(ui::rows_of(rows@) =~= was + signing_in(*view));
}

/// The Basic tab's rows.
pub fn page_basic(view: &SettingsView) -> (r: Vec<Row>)
    ensures
        ui::rows_of(r@) == basic(*view),
{
    let mut rows: Vec<Row> = Vec::new();
    assert(ui::rows_of(rows@) =~= Seq::empty());
    put_connection(&mut rows, view);
    put(&mut rows, Row::Separator);
    put_signing_in(&mut rows, view);
    assert(ui::rows_of(rows@) =~= basic(*view));
    rows
}

fn authorize_buttons(st: &Status) -> (r: Vec<Button>)
    ensures
        ui::buttons_of(r@) == grant_buttons(*st),
{
    let label = if st.holds_grant {
        Phrase::ActCreateGrantAgain
    } else {
        Phrase::ActCreateGrant
    };
    let mut out: Vec<Button> = Vec::new();
    out.push(button(words(label), CMD_AUTHORIZE, false));
    if st.holds_grant {
        out.push(button(words(Phrase::ActGiveUpGrant), CMD_GIVE_UP, false));
    }
    assert(ui::buttons_of(out@) =~= grant_buttons(*st));
    out
}

fn put_grant_state(rows: &mut Vec<Row>, st: &Status)
    ensures
        added(old(rows)@, final(rows)@, grant_state(*st)),
{
    let ghost was = ui::rows_of(rows@);
    if !st.principal.as_str().is_empty() && st.holds_grant {
        put(
            rows,
            Row::Wrap {
                text: Words::Said(
                    say_about(
                        Phrase::SettingsGrantState,
                        Slot::Account,
                        text_value(st.principal.as_str()),
                    ),
                ),
                role: Role::Text,
            },
        );
        put(rows, Row::Gap(6));
    }
    assert(ui::rows_of(rows@) =~= was + grant_state(*st));
}

fn put_authorization(rows: &mut Vec<Row>, view: &SettingsView, st: &Status)
    ensures
        added(old(rows)@, final(rows)@, authorization(*view, *st)),
{
    let ghost was = ui::rows_of(rows@);
    if view.grant_days > 0 {
        put_section(rows, Phrase::SettingsSectionAuthorization);
        put_grant_state(rows, st);
        put(rows, Row::Line { text: words(Phrase::SettingsGrantForLabel), role: Role::Text });
        // The managed cue is the broker field's: the sentence is about who decided,
        // not about which setting it was.
        put_sub(
            rows,
            if view.grant_for_locked {
                Phrase::SettingsBrokerManaged
            } else {
                Phrase::SettingsGrantForSub
            },
        );
        put(rows, Row::Gap(4));
        let no_cue = String::new();
        assert(no_cue@ =~= Seq::empty());
        put(
            rows,
            Row::Edit {
                held: view.grant_for.clone(),
                cue: no_cue,
                editable: !view.grant_for_locked,
                id: CMD_GRANT_FOR,
            },
        );
        put(rows, Row::Gap(8));
        put(
            rows,
            Row::Buttons { buttons: authorize_buttons(st), fit: Fit::Measured { least: 150 } },
        );
        put(rows, Row::Separator);
    }
    assert(ui::rows_of(rows@) =~= was + authorization(*view, *st));
}

fn about_realm(p: Phrase, realm: &str) -> (r: Words)
    ensures
        r@ == WordsModel::Said(of_realm(p, realm@)),
{
    Words::Said(say_about(p, Slot::Realm, text_value(realm)))
}

fn put_windows_setup(rows: &mut Vec<Row>, view: &SettingsView, st: &Status)
    ensures
        added(old(rows)@, final(rows)@, windows_setup(*view, *st)),
{
    let ghost was = ui::rows_of(rows@);
    put_section(rows, Phrase::SettingsSectionWindows);
    // `usable` is the realm being known *and* Windows registered for it, and this
    // group only renders once the realm is known.
    let state = if st.usable {
        Phrase::SettingsEnrolled
    } else {
        Phrase::SettingsNotEnrolled
    };
    put(rows, Row::Wrap { text: about_realm(state, view.realm.as_str()), role: Role::Text });
    if st.usable {
        put(rows, Row::Gap(8));
        // Both of these confirm before changing anything; the shield carries "needs
        // administrator approval" and goes on regardless of whether this account
        // happens to have it.
        let again = button(words(Phrase::ActReenroll), CMD_REENROLL, true);
        let forget = button(
            about_realm(Phrase::ActUnenroll, view.realm.as_str()),
            CMD_UNENROLL,
            true,
        );
        let buttons: Vec<Button> = vec![again, forget];
        assert(ui::buttons_of(buttons@) =~= seq![again@, forget@]);
        put(rows, Row::Buttons { buttons, fit: Fit::Measured { least: 0 } });
    }
    assert(ui::rows_of(rows@) =~= was + windows_setup(*view, *st));
}

fn put_troubleshooting(rows: &mut Vec<Row>)
    ensures
        added(old(rows)@, final(rows)@, troubleshooting()),
{
    let ghost was = ui::rows_of(rows@);
    put_section(rows, Phrase::SettingsSectionTroubleshoot);
    put_sub(rows, Phrase::SettingsTroubleshootSub);
    put(rows, Row::Gap(8));
    let log = button(words(Phrase::ActOpenLog), CMD_OPEN_LOG, false);
    let buttons: Vec<Button> = vec![log];
    assert(ui::buttons_of(buttons@) =~= seq![log@]);
    put(rows, Row::Buttons { buttons, fit: Fit::Measured { least: 160 } });
    assert(ui::rows_of(rows@) =~= was + troubleshooting());
}

/// Authorization and Windows setup, both of which name a realm.
pub fn advanced_realm_sections(rows: &mut Vec<Row>, view: &SettingsView, st: &Status)
    ensures
        added(old(rows)@, final(rows)@, authorization(*view, *st) + windows_setup(*view, *st)),
{
    let ghost was = ui::rows_of(rows@);
    put_authorization(rows, view, st);
    put_windows_setup(rows, view, st);
    assert(ui::rows_of(rows@) =~= was + (authorization(*view, *st) + windows_setup(*view, *st)));
}

/// The Advanced tab's rows.
///
/// **Presence rules, no text branches.** No broker or no realm yet: Authorization and
/// Windows setup are absent, and one line stands in their place to say why.
pub fn page_advanced(view: &SettingsView, st: &Status) -> (r: Vec<Row>)
    ensures
        ui::rows_of(r@) == advanced(*view, *st),
{
    let mut rows: Vec<Row> = Vec::new();
    assert(ui::rows_of(rows@) =~= Seq::empty());
    if view.realm.as_str().is_empty() {
        put_sub(&mut rows, Phrase::SettingsGate);
    } else {
        advanced_realm_sections(&mut rows, view, st);
    }
    assert(ui::rows_of(rows@) =~= realm_sections(*view, *st));
    put(&mut rows, Row::Separator);
    put_troubleshooting(&mut rows);
    assert(ui::rows_of(rows@) =~= advanced(*view, *st));
    rows
}

fn as_it_is(s: &str) -> (r: Words)
    ensures
        r@ == verbatim(s@),
{
    Words::Said(say_about(Phrase::Verbatim, Slot::Detail, text_value(s)))
}

/// The About tab's rows.
pub fn page_about() -> (r: Vec<Row>)
    ensures
        ui::rows_of(r@) == about(),
{
    let mut rows: Vec<Row> = Vec::new();
    put(&mut rows, Row::About);
    put(&mut rows, Row::Gap(14));
    put(&mut rows, Row::Line { text: as_it_is(COPYRIGHT), role: Role::Text });
    put(&mut rows, Row::Gap(8));
    put_sub(&mut rows, Phrase::AboutLicense);
    put(&mut rows, Row::Gap(8));
    put(&mut rows, Row::Wrap { text: as_it_is(WEBSITE), role: Role::Sub });
    assert(ui::rows_of(rows@) =~= about());
    rows
}

// --------------------------------------------------------------------- the size

/// The tallest of some heights.
pub open spec fn tallest_of(heights: Seq<i32>) -> int
    decreases heights.len(),
{
    if heights.len() == 0 {
        0
    } else {
        ui::at_least(tallest_of(heights.drop_last()), heights.last() as int)
    }
}

/// How the tabs and their pages stand.
#[derive(Clone, Copy, PartialEq, Eq, Debug, Structural)]
pub struct Pages {
    /// The height of the tab control, which is the window's.
    pub tab_h: i32,
    /// Where a page starts.
    pub page_top: i32,
    pub page_h: i32,
}

/// Size the window to the tallest page, so that it never resizes under a tab click.
/// The page starts at the items' own bottom edge rather than at the display area,
/// because between the two the control draws a border that stays light on a dark
/// desktop, and covering it is the only way to reach it.
pub fn layout_pages(heights: &Vec<i32>, strip: i32, item_bottom: i32) -> (r: Pages)
    requires
        sys::coordinate(strip + tallest_of(heights@)),
        sys::coordinate(
            strip + tallest_of(heights@) - (if item_bottom > 0 {
                item_bottom
            } else {
                strip
            }),
        ),
    ensures
        r.tab_h == strip + tallest_of(heights@),
        r.page_top == (if item_bottom > 0 {
            item_bottom
        } else {
            strip
        }),
        r.page_h == r.tab_h - r.page_top,
{
    let mut tallest: i32 = 0;
    let mut i: usize = 0;
    assert(heights@.take(0) =~= Seq::empty());
    while i < heights.len()
        invariant
            i <= heights@.len(),
            tallest == tallest_of(heights@.take(i as int)),
        decreases heights@.len() - i,
    {
        proof {
            let t = heights@.take(i + 1);
            assert(t.drop_last() =~= heights@.take(i as int));
            assert(t.last() == heights@[i as int]);
        }
        if heights[i] > tallest {
            tallest = heights[i];
        }
        i = i + 1;
    }
    assert(heights@.take(i as int) =~= heights@);
    let tab_h: i32 = strip + tallest;
    let page_top: i32 = if item_bottom > 0 {
        item_bottom
    } else {
        strip
    };
    Pages { tab_h, page_top, page_h: tab_h - page_top }
}

// ------------------------------------------------------------------- committing

/// What the two text fields held when the page was built. Save is what turns an edit
/// into a change, so it stays disabled until one differs.
pub struct Committed {
    pub broker: String,
    pub grant_for: String,
}

/// Whether a text field differs from what is stored.
pub open spec fn differs(
    broker: Seq<char>,
    grant_for: Option<Seq<char>>,
    held_broker: Seq<char>,
    held_grant_for: Seq<char>,
) -> bool {
    ||| broker != held_broker
    ||| grant_for matches Some(t) && t != held_grant_for
}

impl Committed {
    pub fn of(view: &SettingsView) -> (r: Self)
        ensures
            r.broker@ == view.broker_url@,
            r.grant_for@ == view.grant_for@,
    {
        Committed { broker: view.broker_url.clone(), grant_for: view.grant_for.clone() }
    }

    /// Whether either field differs from what is stored. The target field may not be
    /// on its page.
    pub fn dirty(&self, broker: &str, grant_for: Option<&str>) -> (r: bool)
        ensures
            r == differs(broker@, text::opt_str(grant_for), self.broker@, self.grant_for@),
    {
        !same(broker, self.broker.as_str()) || match grant_for {
            Some(t) => !same(t, self.grant_for.as_str()),
            None => false,
        }
    }
}

/// The broker a Save commits: none where the field still holds what it was shown, since
/// that may be an address the machine only follows.
pub open spec fn edited_broker(held: Seq<char>, broker: Seq<char>) -> Option<Seq<char>> {
    if broker == held {
        None
    } else {
        Some(broker)
    }
}

/// The target a Save commits: what is stored, unless the field is on its page and was
/// edited.
pub open spec fn edited_target(held: Seq<char>, field: Option<Seq<char>>, stored: Seq<char>) -> Seq<
    char,
> {
    match field {
        Some(t) if t != held => t,
        _ => stored,
    }
}

/// Commit the two text fields, each only where it no longer holds what it was shown.
/// Checkboxes never come through here: they apply the moment they are clicked.
///
/// Never an empty string standing in for "absent": the target field lives on a tab
/// that may not have it, and reading a missing one as empty would clear the target
/// every time somebody pressed Save.
pub fn save(
    a: &mut Agent,
    held: &Committed,
    broker: &str,
    grant_for: Option<&str>,
    autostart: bool,
    enabled: bool,
    machine_wide: bool,
    windows_sign_in: bool,
    now: i64,
) -> (r: Applied)
    requires
        schedule::clock(now),
        old(a)@.sound(),
    ensures
        commands::is_applied(
            old(a)@,
            final(a)@,
            r,
            edited_broker(held.broker@, broker@),
            autostart,
            enabled,
            machine_wide,
            windows_sign_in,
            edited_target(
                held.grant_for@,
                text::opt_str(grant_for),
                text::or_nothing(old(a)@.settings.grant_for()),
            ),
            now,
        ),
        final(a)@.sound(),
{
    let broker = if same(broker, held.broker.as_str()) {
        None
    } else {
        Some(broker)
    };
    let stored = text::or_empty(a.settings.grant_for());
    let target = match grant_for {
        Some(t) => if same(t, held.grant_for.as_str()) {
            stored
        } else {
            t.to_owned()
        },
        None => stored,
    };
    apply_settings(
        a,
        broker,
        autostart,
        enabled,
        machine_wide,
        windows_sign_in,
        target.as_str(),
        now,
    )
}

/// Apply the checkboxes on the spot, leaving the text fields to their Save. The
/// broker field is not part of a toggle: passing its value back would write a
/// discovered address into the settings and pin a machine that was meant to keep
/// following the record.
pub fn apply_toggles(
    a: &mut Agent,
    autostart: bool,
    enabled: bool,
    machine_wide: bool,
    windows_sign_in: bool,
    now: i64,
) -> (r: Applied)
    requires
        schedule::clock(now),
        old(a)@.sound(),
    ensures
        commands::is_applied(
            old(a)@,
            final(a)@,
            r,
            None,
            autostart,
            enabled,
            machine_wide,
            windows_sign_in,
            text::or_nothing(old(a)@.settings.grant_for()),
            now,
        ),
        final(a)@.sound(),
{
    let target = text::or_empty(a.settings.grant_for());
    apply_settings(
        a,
        None,
        autostart,
        enabled,
        machine_wide,
        windows_sign_in,
        target.as_str(),
        now,
    )
}

// ----------------------------------------------------------------- the commands

/// What a command of the window asks for.
#[derive(Clone, Copy, PartialEq, Eq, Debug, Structural)]
pub enum Command {
    Save,
    /// The checkboxes changed.
    Toggles,
    /// A text field was edited, so Save follows whether it is dirty.
    Edited,
    /// Commit a pending edit first, then confirm with the committed value -- the
    /// confirmation names its target, which is where a disagreement resolves.
    Authorize,
    Start(Action),
    OpenLog,
    Nothing,
}

pub open spec fn command_of(id: u16, notify: u16) -> Command {
    if notify == BN_CLICKED {
        if id == CMD_SAVE {
            Command::Save
        } else if id == CMD_AUTOSTART || id == CMD_WAM {
            Command::Toggles
        } else if id == CMD_AUTHORIZE {
            Command::Authorize
        } else if id == CMD_GIVE_UP {
            Command::Start(Action::GiveUpGrant)
        } else if id == CMD_REENROLL {
            Command::Start(Action::Reenroll)
        } else if id == CMD_UNENROLL {
            Command::Start(Action::Unenroll)
        } else if id == CMD_OPEN_LOG {
            Command::OpenLog
        } else {
            Command::Nothing
        }
    } else if notify == EN_CHANGE && (id == CMD_BROKER || id == CMD_GRANT_FOR) {
        Command::Edited
    } else {
        Command::Nothing
    }
}

/// What a command stands for: its id, and the notification in its high word.
pub fn on_command(id: u16, notify: u16) -> (r: Command)
    ensures
        r == command_of(id, notify),
{
    if notify == BN_CLICKED {
        return match id {
            CMD_SAVE => Command::Save,
            CMD_AUTOSTART | CMD_WAM => Command::Toggles,
            CMD_AUTHORIZE => Command::Authorize,
            CMD_GIVE_UP => Command::Start(Action::GiveUpGrant),
            CMD_REENROLL => Command::Start(Action::Reenroll),
            CMD_UNENROLL => Command::Start(Action::Unenroll),
            CMD_OPEN_LOG => Command::OpenLog,
            _ => Command::Nothing,
        };
    }
    if notify == EN_CHANGE && (id == CMD_BROKER || id == CMD_GRANT_FOR) {
        return Command::Edited;
    }
    Command::Nothing
}

// ------------------------------------------------------------------------ laws

/// A machine without a realm is offered nothing that names one.
pub proof fn law_nothing_names_a_realm_before_there_is_one(view: SettingsView, st: Status)
    requires
        view.realm@.len() == 0,
    ensures
        advanced(view, st) == seq![subtext(Phrase::SettingsGate), RowModel::Separator]
            + troubleshooting(),
{
    assert(advanced(view, st) =~= seq![subtext(Phrase::SettingsGate), RowModel::Separator]
        + troubleshooting());
}

/// An edit that was not made is not a change: freshly built fields are never dirty.
pub proof fn law_an_untouched_page_is_not_dirty(broker: Seq<char>, grant_for: Seq<char>)
    ensures
        !differs(broker, Some(grant_for), broker, grant_for),
        !differs(broker, None, broker, grant_for),
{
}

/// Toggling a checkbox never moves the agent to another broker: its session, its
/// realm and its grant stay, and so does whom it authorizes itself for.
pub proof fn law_a_toggle_never_retargets(
    m: agent::AgentModel,
    next: agent::AgentModel,
    r: Applied,
    autostart: bool,
    enabled: bool,
    machine_wide: bool,
    windows_sign_in: bool,
    now: i64,
)
    requires
        commands::is_applied(
            m,
            next,
            r,
            None,
            autostart,
            enabled,
            machine_wide,
            windows_sign_in,
            text::or_nothing(m.settings.grant_for()),
            now,
        ),
    ensures
        !r.retargeted,
        r.give_up is None,
        next.kerberos == m.kerberos,
        next.settings.file.grant == m.settings.file.grant,
        next.settings.file.broker_url == m.settings.file.broker_url,
        next.settings.file.grant_for == m.settings.file.grant_for,
{
    commands::law_an_untouched_field_pins_nothing(
        m,
        autostart,
        enabled,
        machine_wide,
        windows_sign_in,
        text::or_nothing(m.settings.grant_for()),
    );
    reveal(commands::written);
}

/// Saving a page on which nothing was edited pins no broker, moves no target and ends
/// no session: a machine that follows a record keeps following it.
pub proof fn law_saving_an_untouched_page_pins_nothing(
    m: agent::AgentModel,
    next: agent::AgentModel,
    r: Applied,
    broker: Seq<char>,
    target: Seq<char>,
    field: Option<Seq<char>>,
    autostart: bool,
    enabled: bool,
    machine_wide: bool,
    windows_sign_in: bool,
    now: i64,
)
    requires
        !differs(broker, field, broker, target),
        commands::is_applied(
            m,
            next,
            r,
            edited_broker(broker, broker),
            autostart,
            enabled,
            machine_wide,
            windows_sign_in,
            edited_target(target, field, text::or_nothing(m.settings.grant_for())),
            now,
        ),
    ensures
        !r.retargeted,
        r.give_up is None,
        next.settings.file.broker_url == m.settings.file.broker_url,
        next.settings.file.grant_for == m.settings.file.grant_for,
        next.settings.file.grant == m.settings.file.grant,
{
    law_a_toggle_never_retargets(
        m,
        next,
        r,
        autostart,
        enabled,
        machine_wide,
        windows_sign_in,
        now,
    );
}

/// A page is dirty where what is typed in is not what is held, and only what was changed is
/// written: a field that still says what is held stands for what is stored.
pub proof fn law_only_what_was_changed_is_written(
    broker: Seq<char>,
    field: Option<Seq<char>>,
    held: Seq<char>,
    target: Seq<char>,
    stored: Seq<char>,
)
    ensures
        differs(broker, field, held, target) <==> broker != held || (field is Some && field
            != Some(target)),
        broker != held ==> edited_broker(held, broker) == Some(broker),
        broker == held ==> edited_broker(held, broker) is None,
        field is None || field == Some(target) ==> edited_target(target, field, stored) == stored,
        field matches Some(t) ==> (t != target ==> edited_target(target, field, stored) == t),
{
}

/// What a press on the page means: each button its own, and typing that something changed.
pub proof fn law_what_a_press_on_the_page_means(id: u16, notify: u16)
    ensures
        command_of(400, 0) == Command::Save,
        command_of(401, 0) == Command::Toggles,
        command_of(402, 0) == Command::Toggles,
        command_of(405, 0) == Command::Authorize,
        command_of(406, 0) == Command::Start(Action::GiveUpGrant),
        command_of(407, 0) == Command::Start(Action::Reenroll),
        command_of(408, 0) == Command::Start(Action::Unenroll),
        command_of(409, 0) == Command::OpenLog,
        command_of(id, notify) == Command::Edited <==> notify == 0x300 && (id == 403 || id == 404),
        notify != 0 && notify != 0x300 ==> command_of(id, notify) == Command::Nothing,
        notify == 0 && (id < 400 || id == 403 || id == 404 || id > 409) ==> command_of(id, notify)
            == Command::Nothing,
{
}

/// The boxes and fields show what holds and are dead where policy decides; every button
/// carries the number its press is known by.
pub proof fn law_what_the_page_shows(view: SettingsView, st: Status)
    ensures
        connection(view).contains(
            RowModel::Edit {
                held: view.broker_url@,
                cue: "kerbridge.example.site"@,
                editable: !view.broker_locked,
                id: 403,
            },
        ),
        signing_in(view).contains(
            RowModel::Checkbox {
                text: words::phrased(Phrase::SettingsStartupLabel),
                id: 401,
                checked: view.autostart,
                enabled: !view.autostart_locked,
            },
        ),
        signing_in(view).contains(
            RowModel::Checkbox {
                text: words::phrased(Phrase::SettingsWamLabel),
                id: 402,
                checked: view.windows_sign_in,
                enabled: !view.windows_sign_in_locked,
            },
        ),
        view.grant_days == 0 ==> authorization(view, st).len() == 0,
        view.grant_days > 0 ==> authorization(view, st).contains(
            RowModel::Edit {
                held: view.grant_for@,
                cue: Seq::empty(),
                editable: !view.grant_for_locked,
                id: 404,
            },
        ),
        grant_buttons(st).len() == (if st.holds_grant {
            2int
        } else {
            1int
        }),
        grant_buttons(st)[0].id == 405 && grant_buttons(st)[0].label == words::phrased(
            if st.holds_grant {
                Phrase::ActCreateGrantAgain
            } else {
                Phrase::ActCreateGrant
            },
        ),
        st.holds_grant ==> grant_buttons(st)[1].id == 406 && grant_buttons(st)[1].label
            == words::phrased(Phrase::ActGiveUpGrant),
        grant_state(st).len() > 0 <==> st.holds_grant && st.principal@.len() > 0,
        grant_state(st).len() > 0 ==> grant_state(st)[0] == (RowModel::Wrap {
            text: WordsModel::Said(
                sentence::about(
                    Phrase::SettingsGrantState,
                    Slot::Account,
                    FillerModel::Text(st.principal@),
                ),
            ),
            role: Role::Text,
        }),
        tab_phrase(0) == Phrase::TabBasic && tab_phrase(1) == Phrase::TabAdvanced && tab_phrase(2)
            == Phrase::TabAbout,
{
    let c = connection(view);
    assert(c[5] == (RowModel::Edit {
        held: view.broker_url@,
        cue: "kerbridge.example.site"@,
        editable: !view.broker_locked,
        id: 403,
    }));
    let s = signing_in(view);
    assert(s[2] == (RowModel::Checkbox {
        text: words::phrased(Phrase::SettingsStartupLabel),
        id: 401,
        checked: view.autostart,
        enabled: !view.autostart_locked,
    }));
    assert(s[s.len() - 2] == (RowModel::Checkbox {
        text: words::phrased(Phrase::SettingsWamLabel),
        id: 402,
        checked: view.windows_sign_in,
        enabled: !view.windows_sign_in_locked,
    }));
    if view.grant_days > 0 {
        let a = authorization(view, st);
        assert(a[a.len() - 4] == (RowModel::Edit {
            held: view.grant_for@,
            cue: Seq::empty(),
            editable: !view.grant_for_locked,
            id: 404,
        }));
    }
}

/// The realm's section says how it stands with Windows, and offers to change it only where
/// there is something to change.
pub proof fn law_what_the_realms_section_offers(view: SettingsView, st: Status)
    ensures
        ({
            let w = windows_setup(view, st);
            &&& w[2] == (RowModel::Wrap {
                text: WordsModel::Said(
                    sentence::about(
                        if st.usable {
                            Phrase::SettingsEnrolled
                        } else {
                            Phrase::SettingsNotEnrolled
                        },
                        Slot::Realm,
                        FillerModel::Text(view.realm@),
                    ),
                ),
                role: Role::Text,
            })
            &&& !st.usable ==> w.len() == 3
            &&& st.usable ==> w.len() == 5 && (w[4] matches RowModel::Buttons { buttons: b, .. }
                && b.len() == 2 && b[0].id == 407 && b[1].id == 408 && b[0].shield && b[1].shield)
        }),
{
}

/// A page is as tall as the tallest of its tabs.
pub proof fn law_a_page_is_as_tall_as_its_tallest(heights: Seq<i32>)
    ensures
        forall|i: int| 0 <= i < heights.len() ==> #[trigger] heights[i] <= tallest_of(heights),
        tallest_of(heights) >= 0,
        tallest_of(heights) == 0 || exists|i: int|
            0 <= i < heights.len() && #[trigger] heights[i] == tallest_of(heights),
    decreases heights.len(),
{
    if heights.len() > 0 {
        let front = heights.drop_last();
        law_a_page_is_as_tall_as_its_tallest(front);
        assert forall|i: int| 0 <= i < heights.len() implies #[trigger] heights[i] <= tallest_of(
            heights,
        ) by {
            if i < front.len() {
                assert(front[i] == heights[i]);
            }
        }
        if tallest_of(heights) == tallest_of(front) && tallest_of(front) != 0 {
            let i = choose|i: int|
                0 <= i < front.len() && #[trigger] front[i] == tallest_of(front);
            assert(heights[i] == tallest_of(heights));
        } else if tallest_of(heights) != 0 {
            assert(heights[heights.len() - 1] == tallest_of(heights));
        }
    }
}

/// The first tab is the connection, a line, and signing in.
pub proof fn law_how_the_first_tab_is_laid_out(view: SettingsView)
    ensures
        ({
            let b = basic(view);
            let n = connection(view).len() as int;
            &&& b.take(n) == connection(view)
            &&& b[n] == RowModel::Separator
            &&& b.skip(n + 1) == signing_in(view)
        }),
{
    let b = basic(view);
    let n = connection(view).len() as int;
    assert(b.take(n) =~= connection(view));
    assert(b.skip(n + 1) =~= signing_in(view));
}

} // verus!
