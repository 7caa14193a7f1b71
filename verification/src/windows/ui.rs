//! The presentation vocabulary every window here shares: the color roles, the rows
//! a window is made of, and where rows and buttons stand.
//!
//! Nothing in here knows what it is showing. A surface says which rows it has; the
//! program measures their text; and [`place`] and the button rows say where
//! everything goes.

use super::sys;
use super::sys::{dip_wide, half_wide};
use super::theme::Palette;
use crate::sentence;
use crate::sentence::{Sentence, SentenceModel};
use crate::text::joined;
use crate::words::{Words, WordsModel};
use vstd::prelude::*;
use vstd::string::*;

verus! {

/// What a control's color says.
#[derive(Clone, Copy, PartialEq, Eq, Debug, Structural)]
pub enum Role {
    Text,
    Sub,
    Accent,
    Warn,
    Danger,
    Good,
    /// A field with a background of its own.
    Field,
    /// A read-only field on the window background, in subtext.
    FlatSub,
    /// A read-only field on the window background, in text.
    FlatText,
    /// A hairline.
    Sep,
    Gear,
    Disclosure,
    /// The explanation block's vertical rule carries the severity of the whole
    /// block: one color signal per fact, the lines inside stay plain text.
    RuleWarn,
    RuleDanger,
    RuleSub,
}

/// The color a role's text is in.
pub open spec fn text_ink(role: Role, p: Palette) -> u32 {
    match role {
        Role::Sub => p.subtext,
        Role::FlatSub => p.subtext,
        Role::Accent => p.accent,
        Role::Warn => p.warn,
        Role::Danger => p.danger,
        Role::Good => p.ok,
        _ => p.text,
    }
}

/// The color a role is filled with.
pub open spec fn fill_ink(role: Role, p: Palette) -> u32 {
    match role {
        Role::Sep => p.sep,
        Role::RuleWarn => p.warn,
        Role::RuleDanger => p.danger,
        Role::RuleSub => p.subtext,
        Role::Field => p.surface,
        _ => p.bg,
    }
}

/// A role's text and fill.
pub fn ctl_color(role: Role, p: &Palette) -> (r: (u32, u32))
    ensures
        r.0 == text_ink(role, *p),
        r.1 == fill_ink(role, *p),
{
    let ink: u32 = match role {
        Role::Sub | Role::FlatSub => p.subtext,
        Role::Accent => p.accent,
        Role::Warn => p.warn,
        Role::Danger => p.danger,
        Role::Good => p.ok,
        _ => p.text,
    };
    let fill: u32 = match role {
        Role::Sep => p.sep,
        Role::RuleWarn => p.warn,
        Role::RuleDanger => p.danger,
        Role::RuleSub => p.subtext,
        Role::Field => p.surface,
        _ => p.bg,
    };
    (ink, fill)
}

/// A push button.
pub struct Button {
    pub label: Words,
    pub id: u16,
    /// Disabled rather than hidden while it cannot be pressed: the control stays
    /// where the user last saw it.
    pub enabled: bool,
    /// The one that Enter presses.
    pub primary: bool,
    /// Needs administrator approval. Never reflects whether this account happens
    /// to have it.
    pub shield: bool,
}

#[verifier::ext_equal]
pub struct ButtonModel {
    pub label: WordsModel,
    pub id: u16,
    pub enabled: bool,
    pub primary: bool,
    pub shield: bool,
}

impl View for Button {
    type V = ButtonModel;

    open spec fn view(&self) -> ButtonModel {
        ButtonModel {
            label: self.label@,
            id: self.id,
            enabled: self.enabled,
            primary: self.primary,
            shield: self.shield,
        }
    }
}

/// The buttons behind a vector of them.
pub open spec fn buttons_of(v: Seq<Button>) -> Seq<ButtonModel> {
    Seq::new(v.len(), |i: int| v[i]@)
}

/// How the buttons of a row share it.
#[derive(Clone, Copy, PartialEq, Eq, Debug, Structural)]
pub enum Fit {
    /// Two at half width when both labels fit, and otherwise one above the other:
    /// [`equal_row`].
    Equal,
    /// Each as wide as its label wants, at least `least`, side by side while they
    /// fit and otherwise one above the other: [`measured_row`].
    Measured { least: i32 },
    /// One of a fixed width, at the right edge.
    Right { width: i32 },
}

/// A row of a window.
pub enum Row {
    /// Nothing, this many logical pixels high.
    Gap(i32),
    /// A full-width hairline with room above and below.
    Separator,
    /// Logo, app name and tagline, and a gear that opens Settings.
    Header,
    /// Logo, app name, version and tagline.
    About,
    /// A larger headline.
    Title { text: Words, role: Role },
    Heading { text: Words },
    /// A single-line label.
    Line { text: Words, role: Role },
    /// A word-wrapped paragraph.
    Wrap { text: Words, role: Role },
    /// A word-wrapped paragraph, each of its sentences on a line of its own.
    Lines { lines: Vec<Sentence>, role: Role },
    /// A read-only field that reads as plain text and can be copied.
    Field { text: Words, role: Role },
    /// A literal plan, in monospace.
    Mono { plan: String },
    /// The vertical rule beside the `beside` rows that follow.
    Rule { role: Role, beside: usize },
    /// A paragraph beside a rule.
    Explained { text: Words, role: Role },
    Edit { held: String, cue: String, editable: bool, id: u16 },
    Checkbox { text: Words, id: u16, checked: bool, enabled: bool },
    Buttons { buttons: Vec<Button>, fit: Fit },
    /// An indeterminate bar.
    Bar,
    /// A hairline that says something is running, and nothing about what.
    Marquee,
    /// A header that opens and closes a section.
    Disclosure { text: Words, open: bool, id: u16 },
    /// What is left of something, and a bar of it: `remaining` of `lifetime`.
    Meter { text: Words, role: Role, remaining: i64, lifetime: i64 },
    /// A label and its value.
    Detail { label: Words, value: Words },
}

#[verifier::ext_equal]
pub enum RowModel {
    Gap(i32),
    Separator,
    Header,
    About,
    Title { text: WordsModel, role: Role },
    Heading { text: WordsModel },
    Line { text: WordsModel, role: Role },
    Wrap { text: WordsModel, role: Role },
    Lines { lines: Seq<SentenceModel>, role: Role },
    Field { text: WordsModel, role: Role },
    Mono { plan: Seq<char> },
    Rule { role: Role, beside: usize },
    Explained { text: WordsModel, role: Role },
    Edit { held: Seq<char>, cue: Seq<char>, editable: bool, id: u16 },
    Checkbox { text: WordsModel, id: u16, checked: bool, enabled: bool },
    Buttons { buttons: Seq<ButtonModel>, fit: Fit },
    Bar,
    Marquee,
    Disclosure { text: WordsModel, open: bool, id: u16 },
    Meter { text: WordsModel, role: Role, remaining: i64, lifetime: i64 },
    Detail { label: WordsModel, value: WordsModel },
}

impl View for Row {
    type V = RowModel;

    open spec fn view(&self) -> RowModel {
        match *self {
            Row::Gap(n) => RowModel::Gap(n),
            Row::Separator => RowModel::Separator,
            Row::Header => RowModel::Header,
            Row::About => RowModel::About,
            Row::Title { text, role } => RowModel::Title { text: text@, role },
            Row::Heading { text } => RowModel::Heading { text: text@ },
            Row::Line { text, role } => RowModel::Line { text: text@, role },
            Row::Wrap { text, role } => RowModel::Wrap { text: text@, role },
            Row::Lines { lines, role } => RowModel::Lines {
                lines: sentence::sentences(lines@),
                role,
            },
            Row::Field { text, role } => RowModel::Field { text: text@, role },
            Row::Mono { plan } => RowModel::Mono { plan: plan@ },
            Row::Rule { role, beside } => RowModel::Rule { role, beside },
            Row::Explained { text, role } => RowModel::Explained { text: text@, role },
            Row::Edit { held, cue, editable, id } => RowModel::Edit {
                held: held@,
                cue: cue@,
                editable,
                id,
            },
            Row::Checkbox { text, id, checked, enabled } => RowModel::Checkbox {
                text: text@,
                id,
                checked,
                enabled,
            },
            Row::Buttons { buttons, fit } => RowModel::Buttons {
                buttons: buttons_of(buttons@),
                fit,
            },
            Row::Bar => RowModel::Bar,
            Row::Marquee => RowModel::Marquee,
            Row::Disclosure { text, open, id } => RowModel::Disclosure { text: text@, open, id },
            Row::Meter { text, role, remaining, lifetime } => RowModel::Meter {
                text: text@,
                role,
                remaining,
                lifetime,
            },
            Row::Detail { label, value } => RowModel::Detail { label: label@, value: value@ },
        }
    }
}

/// The rows behind a vector of them.
pub open spec fn rows_of(v: Seq<Row>) -> Seq<RowModel> {
    Seq::new(v.len(), |i: int| v[i]@)
}

/// Add a row.
pub fn put(rows: &mut Vec<Row>, row: Row)
    ensures
        rows_of(final(rows)@) == rows_of(old(rows)@).push(row@),
{
    let ghost was = rows@;
    rows.push(row);
    assert(rows_of(rows@) =~= rows_of(was).push(row@));
}

// -------------------------------------------------------------------- geometry

/// The larger of two lengths.
pub open spec fn at_least(a: int, b: int) -> int {
    if a >= b {
        a
    } else {
        b
    }
}

pub(crate) fn at_least_of(a: i64, b: i64) -> (r: i64)
    ensures
        r == at_least(a as int, b as int),
{
    if a >= b {
        a
    } else {
        b
    }
}

/// How high a row is, from what its text measures -- or, for a row of buttons, from
/// what the row came to.
pub open spec fn height_of(row: RowModel, measured: int, dpi: int) -> int {
    match row {
        RowModel::Gap(n) => sys::dip_of(n as int, dpi),
        RowModel::Separator => 2 * sys::dip_of(12, dpi) + at_least(sys::dip_of(1, dpi), 1),
        RowModel::Header => at_least(sys::dip_of(34, dpi), sys::dip_of(33, dpi)),
        RowModel::About => at_least(sys::dip_of(40, dpi), sys::dip_of(38, dpi)),
        RowModel::Title { .. } => at_least(measured, sys::dip_of(24, dpi)),
        RowModel::Heading { .. } => sys::dip_of(20, dpi),
        RowModel::Line { .. } => sys::dip_of(18, dpi),
        RowModel::Wrap { .. } => at_least(measured, sys::dip_of(16, dpi)),
        RowModel::Lines { .. } => at_least(measured, sys::dip_of(16, dpi)),
        RowModel::Field { .. } => sys::dip_of(20, dpi),
        RowModel::Mono { .. } => measured + sys::dip_of(4, dpi),
        RowModel::Rule { .. } => 0,
        RowModel::Explained { .. } => at_least(measured, sys::dip_of(16, dpi)),
        RowModel::Edit { .. } => sys::dip_of(24, dpi),
        RowModel::Checkbox { .. } => sys::dip_of(22, dpi),
        RowModel::Buttons { .. } => measured,
        RowModel::Bar => sys::dip_of(6, dpi),
        RowModel::Marquee => sys::dip_of(4, dpi),
        RowModel::Disclosure { .. } => sys::dip_of(22, dpi),
        RowModel::Meter { .. } => sys::dip_of(16, dpi) + sys::dip_of(4, dpi) + sys::dip_of(6, dpi),
        RowModel::Detail { .. } => sys::dip_of(20, dpi),
    }
}

fn height_wide(row: &Row, measured: i32, dpi: u32) -> (r: i64)
    ensures
        r == height_of(row@, measured as int, dpi as int),
        -0x1000_0000_0000_0000 <= r <= 0x1000_0000_0000_0000,
{
    let m: i64 = measured as i64;
    match row {
        Row::Gap(n) => dip_wide(*n, dpi),
        Row::Separator => dip_wide(12, dpi) + at_least_of(dip_wide(1, dpi), 1) + dip_wide(12, dpi),
        Row::Header => at_least_of(dip_wide(34, dpi), dip_wide(33, dpi)),
        Row::About => at_least_of(dip_wide(40, dpi), dip_wide(38, dpi)),
        Row::Title { .. } => at_least_of(m, dip_wide(24, dpi)),
        Row::Heading { .. } => dip_wide(20, dpi),
        Row::Line { .. } => dip_wide(18, dpi),
        Row::Wrap { .. } => at_least_of(m, dip_wide(16, dpi)),
        Row::Lines { .. } => at_least_of(m, dip_wide(16, dpi)),
        Row::Field { .. } => dip_wide(20, dpi),
        Row::Mono { .. } => m + dip_wide(4, dpi),
        Row::Rule { .. } => 0,
        Row::Explained { .. } => at_least_of(m, dip_wide(16, dpi)),
        Row::Edit { .. } => dip_wide(24, dpi),
        Row::Checkbox { .. } => dip_wide(22, dpi),
        Row::Buttons { .. } => m,
        Row::Bar => dip_wide(6, dpi),
        Row::Marquee => dip_wide(4, dpi),
        Row::Disclosure { .. } => dip_wide(22, dpi),
        Row::Meter { .. } => dip_wide(16, dpi) + dip_wide(4, dpi) + dip_wide(6, dpi),
        Row::Detail { .. } => dip_wide(20, dpi),
    }
}

/// How high a row is.
pub fn height(row: &Row, measured: i32, dpi: u32) -> (r: i32)
    requires
        sys::coordinate(height_of(row@, measured as int, dpi as int)),
    ensures
        r == height_of(row@, measured as int, dpi as int),
{
    height_wide(row, measured, dpi) as i32
}

/// Where the row after the first `n` stands: under all of them.
pub open spec fn top_of(
    rows: Seq<RowModel>,
    measured: Seq<i32>,
    dpi: int,
    top: int,
    n: int,
) -> int
    decreases n,
{
    if n <= 0 {
        top
    } else {
        top_of(rows, measured, dpi, top, n - 1) + height_of(
            rows[n - 1],
            measured[n - 1] as int,
            dpi,
        )
    }
}

/// Rows that can be placed: each of them has a measure, and what stands under it is
/// still a coordinate.
pub open spec fn placeable(rows: Seq<RowModel>, measured: Seq<i32>, dpi: u32, top: i32) -> bool {
    &&& rows.len() == measured.len()
    &&& forall|i: int|
        0 <= i <= rows.len() ==> sys::coordinate(
            #[trigger] top_of(rows, measured, dpi as int, top as int, i),
        )
}

/// Where each row stands, and under the last of them where the content ends.
pub fn place(rows: &Vec<Row>, measured: &Vec<i32>, dpi: u32, top: i32) -> (r: Vec<i32>)
    requires
        placeable(rows_of(rows@), measured@, dpi, top),
    ensures
        r@.len() == rows@.len() + 1,
        forall|i: int|
            0 <= i <= rows@.len() ==> #[trigger] r@[i] == top_of(
                rows_of(rows@),
                measured@,
                dpi as int,
                top as int,
                i,
            ),
{
    let ghost m = rows_of(rows@);
    let mut out: Vec<i32> = Vec::new();
    out.push(top);
    let mut y: i32 = top;
    let mut i: usize = 0;
    while i < rows.len()
        invariant
            m == rows_of(rows@),
            placeable(m, measured@, dpi, top),
            i <= rows@.len(),
            out@.len() == i + 1,
            y == top_of(m, measured@, dpi as int, top as int, i as int),
            forall|k: int|
                0 <= k <= i ==> #[trigger] out@[k] == top_of(
                    m,
                    measured@,
                    dpi as int,
                    top as int,
                    k,
                ),
        decreases rows@.len() - i,
    {
        assert(m[i as int] == rows@[i as int]@);
        assert(sys::coordinate(top_of(m, measured@, dpi as int, top as int, i + 1)));
        let under: i64 = y as i64 + height_wide(&rows[i], measured[i], dpi);
        y = under as i32;
        out.push(y);
        i = i + 1;
    }
    out
}

/// A rectangle that a control stands in.
#[derive(Clone, Copy, PartialEq, Eq, Debug, Structural)]
pub struct Place {
    pub x: i32,
    pub y: i32,
    pub w: i32,
    pub h: i32,
}

/// A place as numbers.
pub open spec fn spot(p: Place) -> (int, int, int, int) {
    (p.x as int, p.y as int, p.w as int, p.h as int)
}

/// Numbers that a place can hold.
pub open spec fn fits(s: (int, int, int, int)) -> bool {
    sys::coordinate(s.0) && sys::coordinate(s.1) && sys::coordinate(s.2) && sys::coordinate(s.3)
}

pub(crate) fn place_at(x: i64, y: i64, w: i64, h: i64) -> (r: Place)
    requires
        fits((x as int, y as int, w as int, h as int)),
    ensures
        spot(r) == (x as int, y as int, w as int, h as int),
{
    Place { x: x as i32, y: y as i32, w: w as i32, h: h as i32 }
}

/// What a button wants of a row: its label, the shield's allowance where one is
/// drawn, and the padding.
pub open spec fn wants(label: int, shield: bool, dpi: int) -> int {
    label + (if shield {
        sys::dip_of(18, dpi)
    } else {
        0
    }) + sys::dip_of(16, dpi)
}

pub(crate) fn want_wide(label: i32, shield: bool, dpi: u32) -> (r: i64)
    ensures
        r == wants(label as int, shield, dpi as int),
        -0x1000_0000_0000_0000 <= r <= 0x1000_0000_0000_0000,
{
    let allowance: i64 = if shield {
        dip_wide(18, dpi)
    } else {
        0
    };
    label as i64 + allowance + dip_wide(16, dpi)
}

/// Whether two buttons share a row at half width each.
pub open spec fn pairs(labels: Seq<i32>, shields: Seq<bool>, w: int, dpi: int) -> bool {
    &&& labels.len() == 2
    &&& wants(labels[0] as int, shields[0], dpi) <= sys::halved(w - sys::dip_of(8, dpi))
    &&& wants(labels[1] as int, shields[1], dpi) <= sys::halved(w - sys::dip_of(8, dpi))
}

/// The row that buttons share: where each stands.
pub open spec fn equal_places(
    labels: Seq<i32>,
    shields: Seq<bool>,
    x: int,
    y: int,
    w: int,
    dpi: int,
    i: int,
) -> (int, int, int, int) {
    let h = sys::dip_of(30, dpi);
    if pairs(labels, shields, w, dpi) {
        let bw = sys::halved(w - sys::dip_of(8, dpi));
        (x + i * (bw + sys::dip_of(8, dpi)), y, bw, h)
    } else {
        (x, y + i * (h + sys::dip_of(6, dpi)), w, h)
    }
}

/// How high that row is.
pub open spec fn equal_height(labels: Seq<i32>, shields: Seq<bool>, w: int, dpi: int) -> int {
    if labels.len() == 0 {
        0
    } else if pairs(labels, shields, w, dpi) {
        sys::dip_of(30, dpi)
    } else {
        labels.len() * sys::dip_of(30, dpi) + (labels.len() - 1) * sys::dip_of(6, dpi)
    }
}

/// The flyout's button row: at most two, paired when both labels fit at half width
/// and stacked when they do not. Returns where each stands and how high the row
/// came to be.
///
/// **The rule is what matters, not the widths**: a label that crosses the line
/// stacks, and any change to the allowances flips one silently.
pub fn equal_row(labels: &Vec<i32>, shields: &Vec<bool>, x: i32, y: i32, w: i32, dpi: u32) -> (r: (
    Vec<Place>,
    i32,
))
    requires
        labels@.len() == shields@.len(),
        forall|i: int|
            0 <= i < labels@.len() ==> fits(
                #[trigger] equal_places(
                    labels@,
                    shields@,
                    x as int,
                    y as int,
                    w as int,
                    dpi as int,
                    i,
                ),
            ),
        sys::coordinate(equal_height(labels@, shields@, w as int, dpi as int)),
    ensures
        r.0@.len() == labels@.len(),
        forall|i: int|
            0 <= i < labels@.len() ==> spot(#[trigger] r.0@[i]) == equal_places(
                labels@,
                shields@,
                x as int,
                y as int,
                w as int,
                dpi as int,
                i,
            ),
        r.1 == equal_height(labels@, shields@, w as int, dpi as int),
{
    let h: i64 = dip_wide(30, dpi);
    let spacing: i64 = dip_wide(8, dpi);
    let gap: i64 = dip_wide(6, dpi);
    let half: i64 = half_wide(w as i64 - spacing);
    let pair = labels.len() == 2 && want_wide(labels[0], shields[0], dpi) <= half && want_wide(
        labels[1],
        shields[1],
        dpi,
    ) <= half;
    let mut out: Vec<Place> = Vec::new();
    if pair {
        let ghost a = equal_places(
            labels@,
            shields@,
            x as int,
            y as int,
            w as int,
            dpi as int,
            0,
        );
        let ghost b = equal_places(
            labels@,
            shields@,
            x as int,
            y as int,
            w as int,
            dpi as int,
            1,
        );
        let step: i64 = half + spacing;
        assert(0 * step == 0 && 1 * step == step) by (nonlinear_arith);
        assert(fits(a) && fits(b));
        out.push(place_at(x as i64, y as i64, half, h));
        out.push(place_at(x as i64 + step, y as i64, half, h));
        assert(spot(out@[0]) == a && spot(out@[1]) == b);
        return (out, h as i32);
    }
    let mut at: i64 = y as i64;
    let mut i: usize = 0;
    while i < labels.len()
        invariant
            forall|k: int|
                0 <= k < labels@.len() ==> fits(
                    #[trigger] equal_places(
                        labels@,
                        shields@,
                        x as int,
                        y as int,
                        w as int,
                        dpi as int,
                        k,
                    ),
                ),
            !pairs(labels@, shields@, w as int, dpi as int),
            h == sys::dip_of(30, dpi as int),
            gap == sys::dip_of(6, dpi as int),
            0 <= h <= 0x200_0000_0000_0000,
            0 <= gap <= 0x200_0000_0000_0000,
            i <= labels@.len(),
            out@.len() == i,
            at == y + i * (h + gap),
            -0x1000_0000_0000_0000 <= at <= 0x1000_0000_0000_0000,
            forall|k: int|
                0 <= k < i ==> spot(#[trigger] out@[k]) == equal_places(
                    labels@,
                    shields@,
                    x as int,
                    y as int,
                    w as int,
                    dpi as int,
                    k,
                ),
        decreases labels@.len() - i,
    {
        let ghost here = equal_places(
            labels@,
            shields@,
            x as int,
            y as int,
            w as int,
            dpi as int,
            i as int,
        );
        assert(fits(here) && here == (x as int, at as int, w as int, h as int));
        assert((i + 1) * (h + gap) == i * (h + gap) + (h + gap)) by (nonlinear_arith);
        out.push(place_at(x as i64, at, w as i64, h));
        at = at + (h + gap);
        i = i + 1;
    }
    if labels.len() == 0 {
        return (out, 0);
    }
    proof {
        let n = labels@.len() as int;
        assert(n * (h + gap) - gap == n * h + (n - 1) * gap) by (nonlinear_arith);
    }
    (out, (at - y as i64 - gap) as i32)
}

/// The width of each button of a measured row.
pub open spec fn measured_width(label: int, shield: bool, least: int, dpi: int) -> int {
    at_least(wants(label, shield, dpi), sys::dip_of(least, dpi))
}

fn measured_width_wide(label: i32, shield: bool, least: i32, dpi: u32) -> (r: i64)
    ensures
        r == measured_width(label as int, shield, least as int, dpi as int),
        -0x1000_0000_0000_0000 <= r <= 0x1000_0000_0000_0000,
{
    at_least_of(want_wide(label, shield, dpi), dip_wide(least, dpi))
}

/// How far the first `n` buttons of a measured row reach, each with the spacing
/// after it.
pub open spec fn reach(labels: Seq<i32>, shields: Seq<bool>, least: int, dpi: int, n: int) -> int
    decreases n,
{
    if n <= 0 {
        0
    } else {
        reach(labels, shields, least, dpi, n - 1) + measured_width(
            labels[n - 1] as int,
            shields[n - 1],
            least,
            dpi,
        ) + sys::dip_of(8, dpi)
    }
}

/// How wide the first `n` buttons of a measured row are, with the spacing between them.
pub open spec fn extent(labels: Seq<i32>, shields: Seq<bool>, least: int, dpi: int, n: int) -> int {
    reach(labels, shields, least, dpi, n) - sys::dip_of(8, dpi)
}

/// Whether a measured row does not fit and its buttons stand one above the other.
pub open spec fn stacks(labels: Seq<i32>, shields: Seq<bool>, least: int, w: int, dpi: int) -> bool {
    extent(labels, shields, least, dpi, labels.len() as int) > w
}

/// Where each button of a measured row stands.
pub open spec fn measured_places(
    labels: Seq<i32>,
    shields: Seq<bool>,
    least: int,
    x: int,
    y: int,
    w: int,
    dpi: int,
    i: int,
) -> (int, int, int, int) {
    let h = sys::dip_of(28, dpi);
    let bw = measured_width(labels[i] as int, shields[i], least, dpi);
    if stacks(labels, shields, least, w, dpi) {
        (x, y + i * (h + sys::dip_of(6, dpi)), bw, h)
    } else {
        (x + reach(labels, shields, least, dpi, i), y, bw, h)
    }
}

/// How high that row is.
pub open spec fn measured_height(
    labels: Seq<i32>,
    shields: Seq<bool>,
    least: int,
    w: int,
    dpi: int,
) -> int {
    if labels.len() == 0 {
        0
    } else if stacks(labels, shields, least, w, dpi) {
        labels.len() * sys::dip_of(28, dpi) + (labels.len() - 1) * sys::dip_of(6, dpi)
    } else {
        sys::dip_of(28, dpi)
    }
}

/// A measured row that can be placed: how far it reaches is a coordinate at every
/// button, and so is everything that comes of it.
pub open spec fn rowable(
    labels: Seq<i32>,
    shields: Seq<bool>,
    least: int,
    x: int,
    y: int,
    w: int,
    dpi: int,
) -> bool {
    &&& labels.len() == shields.len()
    &&& forall|n: int|
        1 <= n <= labels.len() ==> sys::coordinate(
            #[trigger] extent(labels, shields, least, dpi, n),
        )
    &&& forall|i: int|
        0 <= i < labels.len() ==> fits(
            #[trigger] measured_places(labels, shields, least, x, y, w, dpi, i),
        )
    &&& sys::coordinate(measured_height(labels, shields, least, w, dpi))
}

fn whole_reach(labels: &Vec<i32>, shields: &Vec<bool>, least: i32, dpi: u32) -> (r: i64)
    requires
        labels@.len() == shields@.len(),
        forall|n: int|
            1 <= n <= labels@.len() ==> sys::coordinate(
                #[trigger] extent(labels@, shields@, least as int, dpi as int, n),
            ),
    ensures
        r == reach(labels@, shields@, least as int, dpi as int, labels@.len() as int),
        -0x1000_0000_0000_0000 <= r <= 0x1000_0000_0000_0000,
{
    let spacing: i64 = dip_wide(8, dpi);
    let mut sum: i64 = 0;
    let mut i: usize = 0;
    while i < labels.len()
        invariant
            labels@.len() == shields@.len(),
            forall|n: int|
                1 <= n <= labels@.len() ==> sys::coordinate(
                    #[trigger] extent(labels@, shields@, least as int, dpi as int, n),
                ),
            spacing == sys::dip_of(8, dpi as int),
            0 <= spacing <= 0x200_0000_0000_0000,
            i <= labels@.len(),
            sum == reach(labels@, shields@, least as int, dpi as int, i as int),
            -0x1000_0000_0000_0000 <= sum <= 0x1000_0000_0000_0000,
        decreases labels@.len() - i,
    {
        let bw: i64 = measured_width_wide(labels[i], shields[i], least, dpi);
        assert(sys::coordinate(extent(labels@, shields@, least as int, dpi as int, i + 1)));
        sum = sum + bw + spacing;
        i = i + 1;
    }
    sum
}

/// A row of buttons each as wide as its label wants: verb phrases in many
/// languages, some of which name the realm, so that any fixed width clips whichever
/// is longest wherever nobody happened to look. Returns where each stands and how
/// high the row came to be.
pub fn measured_row(
    labels: &Vec<i32>,
    shields: &Vec<bool>,
    least: i32,
    x: i32,
    y: i32,
    w: i32,
    dpi: u32,
) -> (r: (Vec<Place>, i32))
    requires
        rowable(labels@, shields@, least as int, x as int, y as int, w as int, dpi as int),
    ensures
        r.0@.len() == labels@.len(),
        forall|i: int|
            0 <= i < labels@.len() ==> spot(#[trigger] r.0@[i]) == measured_places(
                labels@,
                shields@,
                least as int,
                x as int,
                y as int,
                w as int,
                dpi as int,
                i,
            ),
        r.1 == measured_height(labels@, shields@, least as int, w as int, dpi as int),
{
    let h: i64 = dip_wide(28, dpi);
    let gap: i64 = dip_wide(6, dpi);
    let spacing: i64 = dip_wide(8, dpi);
    let whole: i64 = whole_reach(labels, shields, least, dpi);
    let stack = whole - spacing > w as i64;
    let mut out: Vec<Place> = Vec::new();
    let mut down: i64 = y as i64;
    let mut left: i64 = 0;
    let mut i: usize = 0;
    while i < labels.len()
        invariant
            rowable(labels@, shields@, least as int, x as int, y as int, w as int, dpi as int),
            stack == stacks(labels@, shields@, least as int, w as int, dpi as int),
            h == sys::dip_of(28, dpi as int),
            gap == sys::dip_of(6, dpi as int),
            spacing == sys::dip_of(8, dpi as int),
            0 <= h <= 0x200_0000_0000_0000,
            0 <= gap <= 0x200_0000_0000_0000,
            0 <= spacing <= 0x200_0000_0000_0000,
            i <= labels@.len(),
            out@.len() == i,
            stack ==> down == y + i * (h + gap),
            left == reach(labels@, shields@, least as int, dpi as int, i as int),
            -0x1000_0000_0000_0000 <= down <= 0x1000_0000_0000_0000,
            -0x1000_0000_0000_0000 <= left <= 0x1000_0000_0000_0000,
            forall|k: int|
                0 <= k < i ==> spot(#[trigger] out@[k]) == measured_places(
                    labels@,
                    shields@,
                    least as int,
                    x as int,
                    y as int,
                    w as int,
                    dpi as int,
                    k,
                ),
        decreases labels@.len() - i,
    {
        let bw: i64 = measured_width_wide(labels[i], shields[i], least, dpi);
        let ghost here = measured_places(
            labels@,
            shields@,
            least as int,
            x as int,
            y as int,
            w as int,
            dpi as int,
            i as int,
        );
        assert(fits(here));
        assert(sys::coordinate(extent(labels@, shields@, least as int, dpi as int, i + 1)));
        if stack {
            assert((i + 1) * (h + gap) == i * (h + gap) + (h + gap)) by (nonlinear_arith);
            out.push(place_at(x as i64, down, bw, h));
            down = down + (h + gap);
        } else {
            out.push(place_at(x as i64 + left, y as i64, bw, h));
        }
        left = left + bw + spacing;
        i = i + 1;
    }
    if labels.len() == 0 {
        return (out, 0);
    }
    if stack {
        proof {
            let n = labels@.len() as int;
            assert(n * (h + gap) - gap == n * h + (n - 1) * gap) by (nonlinear_arith);
        }
        (out, (down - y as i64 - gap) as i32)
    } else {
        (out, h as i32)
    }
}

// ------------------------------------------------------------ inside some rows

/// The column that a window's rows stand in: its left edge, its top and its width.
pub open spec fn column_of(width: int, pad: int, dpi: int) -> (int, int, int) {
    (sys::dip_of(pad, dpi), sys::dip_of(pad, dpi), sys::dip_of(width, dpi) - 2 * sys::dip_of(pad, dpi))
}

/// The column of a window that is `width` wide with `pad` around its rows.
pub fn column(width: i32, pad: i32, dpi: u32) -> (r: (i32, i32, i32))
    requires
        ({
            let (x, y, w) = column_of(width as int, pad as int, dpi as int);
            sys::coordinate(x) && sys::coordinate(w)
        }),
    ensures
        (r.0 as int, r.1 as int, r.2 as int) == column_of(width as int, pad as int, dpi as int),
{
    let p: i64 = dip_wide(pad, dpi);
    let w: i64 = dip_wide(width, dpi) - p * 2;
    (p as i32, p as i32, w as i32)
}

/// A disclosure's caption: a chevron that says whether it is open, and the label.
pub fn disclosure_text(label: &str, open: bool) -> (r: String)
    ensures
        r@ == (if open {
            "\u{25be}  "@
        } else {
            "\u{25b8}  "@
        }) + label@,
{
    if open {
        joined("\u{25be}  ", label)
    } else {
        joined("\u{25b8}  ", label)
    }
}

/// How a flat button is painted: its fill, a tint while it is held down, and its ink.
/// The gear is centered and everything else is left-aligned.
pub fn flat_paint(role: Role, pressed: bool, p: &Palette) -> (r: (u32, u32, bool))
    ensures
        r.0 == (if pressed {
            p.surface
        } else {
            p.bg
        }),
        r.1 == p.subtext,
        r.2 == (role is Gear),
{
    let fill: u32 = if pressed {
        p.surface
    } else {
        p.bg
    };
    (fill, p.subtext, matches!(role, Role::Gear))
}

/// What the header is made of.
#[derive(Clone, Copy, PartialEq, Eq, Debug, Structural)]
pub struct HeaderPlaces {
    pub logo: Place,
    pub title: Place,
    pub tagline: Place,
    pub gear: Place,
}

pub open spec fn logo_spot(x: int, y: int, dpi: int) -> (int, int, int, int) {
    (x, y, sys::dip_of(34, dpi), sys::dip_of(34, dpi))
}

/// Where the app's name stands: beside the logo, up to the gear.
pub open spec fn title_spot(x: int, y: int, w: int, dpi: int) -> (int, int, int, int) {
    let left = sys::dip_of(34, dpi) + sys::dip_of(10, dpi);
    (x + left, y, w - left - sys::dip_of(30, dpi) - sys::dip_of(6, dpi), sys::dip_of(18, dpi))
}

/// Where the tagline stands: under the name.
pub open spec fn tagline_spot(x: int, y: int, w: int, dpi: int) -> (int, int, int, int) {
    let t = title_spot(x, y, w, dpi);
    (t.0, y + sys::dip_of(18, dpi), t.2, sys::dip_of(15, dpi))
}

/// Where the gear stands: on the right, in the middle of the logo's height.
pub open spec fn gear_spot(x: int, y: int, w: int, dpi: int) -> (int, int, int, int) {
    let gear = sys::dip_of(30, dpi);
    (x + w - gear, y + sys::halved(sys::dip_of(34, dpi) - gear), gear, gear)
}

/// The header: the logo on the left, the app's name and tagline beside it, and a gear
/// on the right.
pub fn header_places(x: i32, y: i32, w: i32, dpi: u32) -> (r: HeaderPlaces)
    requires
        fits(logo_spot(x as int, y as int, dpi as int)),
        fits(title_spot(x as int, y as int, w as int, dpi as int)),
        fits(tagline_spot(x as int, y as int, w as int, dpi as int)),
        fits(gear_spot(x as int, y as int, w as int, dpi as int)),
    ensures
        spot(r.logo) == logo_spot(x as int, y as int, dpi as int),
        spot(r.title) == title_spot(x as int, y as int, w as int, dpi as int),
        spot(r.tagline) == tagline_spot(x as int, y as int, w as int, dpi as int),
        spot(r.gear) == gear_spot(x as int, y as int, w as int, dpi as int),
{
    let (x, y, w): (i64, i64, i64) = (x as i64, y as i64, w as i64);
    let icon: i64 = dip_wide(34, dpi);
    let gear: i64 = dip_wide(30, dpi);
    let left: i64 = icon + dip_wide(10, dpi);
    let text_w: i64 = w - left - gear - dip_wide(6, dpi);
    let high: i64 = dip_wide(18, dpi);
    HeaderPlaces {
        logo: place_at(x, y, icon, icon),
        title: place_at(x + left, y, text_w, high),
        tagline: place_at(x + left, y + high, text_w, dip_wide(15, dpi)),
        gear: place_at(x + w - gear, y + half_wide(icon - gear), gear, gear),
    }
}

/// Where the About header's logo, name and caption stand.
pub open spec fn about_spots(x: int, y: int, w: int, dpi: int) -> (
    (int, int, int, int),
    (int, int, int, int),
    (int, int, int, int),
) {
    let icon = sys::dip_of(40, dpi);
    let left = icon + sys::dip_of(12, dpi);
    (
        (x, y, icon, icon),
        (x + left, y, w - left, sys::dip_of(22, dpi)),
        (x + left, y + sys::dip_of(22, dpi), w - left, sys::dip_of(16, dpi)),
    )
}

/// The About header: the logo, the app's name, and its version and tagline under it.
pub fn about_places(x: i32, y: i32, w: i32, dpi: u32) -> (r: (Place, Place, Place))
    requires
        ({
            let (logo, name, caption) = about_spots(x as int, y as int, w as int, dpi as int);
            fits(logo) && fits(name) && fits(caption)
        }),
    ensures
        (spot(r.0), spot(r.1), spot(r.2)) == about_spots(x as int, y as int, w as int, dpi as int),
{
    let (x, y, w): (i64, i64, i64) = (x as i64, y as i64, w as i64);
    let icon: i64 = dip_wide(40, dpi);
    let left: i64 = icon + dip_wide(12, dpi);
    let high: i64 = dip_wide(22, dpi);
    (
        place_at(x, y, icon, icon),
        place_at(x + left, y, w - left, high),
        place_at(x + left, y + high, w - left, dip_wide(16, dpi)),
    )
}

/// The width of the explanation's rule.
pub open spec fn rule_width(dpi: int) -> int {
    at_least(sys::dip_of(2, dpi), 1)
}

/// Where an explained line's text starts, and how wide it is: beside the rule, with an
/// indent.
pub open spec fn explained_column(x: int, w: int, dpi: int) -> (int, int) {
    let beside = rule_width(dpi) + sys::dip_of(10, dpi);
    (x + beside, w - beside)
}

/// The width of the rule, and the column of the text beside it.
pub fn explanation_column(x: i32, w: i32, dpi: u32) -> (r: (i32, i32, i32))
    requires
        sys::coordinate(rule_width(dpi as int)),
        ({
            let (left, width) = explained_column(x as int, w as int, dpi as int);
            sys::coordinate(left) && sys::coordinate(width)
        }),
    ensures
        r.0 == rule_width(dpi as int),
        (r.1 as int, r.2 as int) == explained_column(x as int, w as int, dpi as int),
{
    let rule: i64 = at_least_of(dip_wide(2, dpi), 1);
    let beside: i64 = rule + dip_wide(10, dpi);
    let left: i64 = x as i64 + beside;
    let width: i64 = w as i64 - beside;
    (rule as i32, left as i32, width as i32)
}

/// The halves of a row.
pub open spec fn half_spots(x: int, y: int, w: int, h: int, dpi: int) -> (
    (int, int, int, int),
    (int, int, int, int),
) {
    let half = sys::halved(w);
    ((x, y, half, sys::dip_of(h, dpi)), (x + half, y, half, sys::dip_of(h, dpi)))
}

/// A row in two halves: a label on the left and its value on the right.
pub fn halves(x: i32, y: i32, w: i32, h: i32, dpi: u32) -> (r: (Place, Place))
    requires
        ({
            let (label, value) = half_spots(x as int, y as int, w as int, h as int, dpi as int);
            fits(label) && fits(value)
        }),
    ensures
        (spot(r.0), spot(r.1)) == half_spots(x as int, y as int, w as int, h as int, dpi as int),
{
    let (x, y): (i64, i64) = (x as i64, y as i64);
    let half: i64 = half_wide(w as i64);
    let high: i64 = dip_wide(h, dpi);
    (place_at(x, y, half, high), place_at(x + half, y, half, high))
}

/// Where a meter's bar stands, of a thousand: what is left of the whole, or all of it.
pub open spec fn meter_of(remaining: int, lifetime: int) -> int {
    if remaining >= lifetime {
        1_000
    } else {
        remaining * 1_000 / lifetime
    }
}

pub fn meter_position(remaining: i64, lifetime: i64) -> (r: i32)
    requires
        0 <= remaining,
        1 <= lifetime,
    ensures
        r == meter_of(remaining as int, lifetime as int),
        0 <= r <= 1_000,
{
    if remaining >= lifetime {
        return 1_000;
    }
    let scaled: i128 = remaining as i128 * 1_000 / lifetime as i128;
    proof {
        assert(0 <= remaining * 1_000 / (lifetime as int) <= 1_000) by (nonlinear_arith)
            requires
                0 <= remaining < lifetime,
        ;
    }
    scaled as i32
}

// ------------------------------------------------------------------------ laws

/// A row that takes room: its text measures something and its gap points down.
pub open spec fn takes_room(row: RowModel, measured: i32) -> bool {
    &&& 0 <= measured
    &&& row matches RowModel::Gap(n) ==> 0 <= n
}

/// Rows stand one under the other and never overlap.
pub proof fn law_rows_do_not_overlap(
    rows: Seq<RowModel>,
    measured: Seq<i32>,
    dpi: u32,
    top: i32,
    i: int,
    j: int,
)
    requires
        rows.len() == measured.len(),
        forall|k: int| 0 <= k < rows.len() ==> #[trigger] takes_room(rows[k], measured[k]),
        0 <= i < j <= rows.len(),
    ensures
        top_of(rows, measured, dpi as int, top as int, i) + height_of(
            rows[i],
            measured[i] as int,
            dpi as int,
        ) <= top_of(rows, measured, dpi as int, top as int, j),
        0 <= height_of(rows[i], measured[i] as int, dpi as int),
    decreases j - i,
{
    assert(takes_room(rows[i], measured[i]));
    row_is_no_hole(rows[i], measured[i], dpi);
    if j > i + 1 {
        law_rows_do_not_overlap(rows, measured, dpi, top, i, j - 1);
        assert(takes_room(rows[j - 1], measured[j - 1]));
        row_is_no_hole(rows[j - 1], measured[j - 1], dpi);
    }
}

proof fn row_is_no_hole(row: RowModel, measured: i32, dpi: u32)
    requires
        takes_room(row, measured),
    ensures
        0 <= height_of(row, measured as int, dpi as int),
{
    if let RowModel::Gap(n) = row {
        assert(0 <= n * dpi) by (nonlinear_arith)
            requires
                0 <= n,
                0 <= dpi,
        ;
    }
}

/// Two buttons that share a row leave a gap between them and stay inside it.
pub proof fn law_a_pair_stays_inside_its_row(
    labels: Seq<i32>,
    shields: Seq<bool>,
    x: int,
    y: int,
    w: int,
    dpi: int,
)
    requires
        pairs(labels, shields, w, dpi),
        0 <= dpi,
        sys::dip_of(8, dpi) <= w,
    ensures
        ({
            let a = equal_places(labels, shields, x, y, w, dpi, 0);
            let b = equal_places(labels, shields, x, y, w, dpi, 1);
            a.0 == x && a.0 + a.2 + sys::dip_of(8, dpi) == b.0 && b.0 + b.2 <= x + w && a.1 == b.1
                && wants(labels[0] as int, shields[0], dpi) <= a.2 && wants(
                labels[1] as int,
                shields[1],
                dpi,
            ) <= b.2
        }),
{
}

/// What a role is written in, and what it is filled with.
pub proof fn law_every_role_has_its_ink(role: Role, p: Palette)
    ensures
        role == Role::Sub || role == Role::FlatSub ==> text_ink(role, p) == p.subtext,
        role == Role::Accent ==> text_ink(role, p) == p.accent,
        role == Role::Warn ==> text_ink(role, p) == p.warn,
        role == Role::Danger ==> text_ink(role, p) == p.danger,
        role == Role::Good ==> text_ink(role, p) == p.ok,
        role == Role::Text || role == Role::FlatText || role == Role::Field || role == Role::Gear
            || role == Role::Disclosure ==> text_ink(role, p) == p.text,
        role == Role::Sep ==> fill_ink(role, p) == p.sep,
        role == Role::RuleWarn ==> fill_ink(role, p) == p.warn,
        role == Role::RuleDanger ==> fill_ink(role, p) == p.danger,
        role == Role::RuleSub ==> fill_ink(role, p) == p.subtext,
        role == Role::Field ==> fill_ink(role, p) == p.surface,
        role == Role::Text || role == Role::Sub || role == Role::FlatSub || role == Role::FlatText
            ==> fill_ink(role, p) == p.bg,
{
}

/// The meter shows what is left of the whole, in thousandths: all of it at the start,
/// nothing at the end, and never more than there is.
pub proof fn law_the_meter_shows_what_is_left(remaining: int, lifetime: int)
    requires
        0 <= remaining,
        0 < lifetime,
    ensures
        0 <= meter_of(remaining, lifetime) <= 1_000,
        meter_of(0, lifetime) == 0,
        remaining >= lifetime ==> meter_of(remaining, lifetime) == 1_000,
        remaining < lifetime ==> meter_of(remaining, lifetime) * lifetime <= remaining * 1_000 < (
        meter_of(remaining, lifetime) + 1) * lifetime,
{
    if remaining < lifetime {
        let n = remaining * 1_000;
        let q = n / lifetime;
        vstd::arithmetic::div_mod::lemma_fundamental_div_mod(n, lifetime);
        vstd::arithmetic::div_mod::lemma_mod_bound(n, lifetime);
        assert(q * lifetime == lifetime * q) by (nonlinear_arith);
        assert((q + 1) * lifetime == q * lifetime + lifetime) by (nonlinear_arith);
        vstd::arithmetic::div_mod::lemma_div_pos_is_pos(n, lifetime);
        if q > 1_000 {
            assert(q * lifetime >= 1_001 * lifetime) by (nonlinear_arith)
                requires
                    q >= 1_001,
                    lifetime > 0,
            ;
        }
    }
    assert(0int / lifetime == 0) by {
        vstd::arithmetic::div_mod::lemma_div_basics(lifetime);
    }
}

/// Rows stand under each other: the first at the top, each next below the height of the one
/// before.
pub proof fn law_rows_stand_under_each_other(
    rows: Seq<RowModel>,
    measured: Seq<i32>,
    dpi: int,
    top: int,
    n: int,
)
    requires
        0 <= n < rows.len(),
    ensures
        top_of(rows, measured, dpi, top, 0) == top,
        top_of(rows, measured, dpi, top, n + 1) - top_of(rows, measured, dpi, top, n) == height_of(
            rows[n],
            measured[n] as int,
            dpi,
        ),
{
}

/// A button is as wide as its label, its shield and the air around them, and never narrower
/// than it has to be.
pub proof fn law_how_wide_a_button_is(label: int, shield: bool, least: int)
    ensures
        wants(label, false, 96) == label + 16,
        wants(label, true, 96) == label + 34,
        measured_width(label, shield, least, 96) >= wants(label, shield, 96),
        measured_width(label, shield, least, 96) >= least,
        measured_width(label, shield, least, 96) == wants(label, shield, 96) || measured_width(
            label,
            shield,
            least,
            96,
        ) == least,
{
    sys::law_a_length_scales(least, 96);
}

/// Two buttons share a row where both labels fit in half of it; otherwise they stand one
/// under the other, over the whole width.
pub proof fn law_how_two_buttons_stand(
    labels: Seq<i32>,
    shields: Seq<bool>,
    x: int,
    y: int,
    w: int,
)
    requires
        labels.len() == 2,
        shields.len() == 2,
        8 <= w,
    ensures
        ({
            let half = (w - 8) / 2;
            let fit = wants(labels[0] as int, shields[0], 96) <= half && wants(
                labels[1] as int,
                shields[1],
                96,
            ) <= half;
            let a = equal_places(labels, shields, x, y, w, 96, 0);
            let b = equal_places(labels, shields, x, y, w, 96, 1);
            &&& pairs(labels, shields, w, 96) <==> fit
            &&& fit ==> a == (x, y, half, 30int) && b == (x + half + 8, y, half, 30int)
                && equal_height(labels, shields, w, 96) == 30
            &&& !fit ==> a == (x, y, w, 30int) && b == (x, y + 36, w, 30int) && equal_height(
                labels,
                shields,
                w,
                96,
            ) == 66
        }),
{
}

/// Buttons of their own width stand beside each other, eight apart, as long as they fit, and
/// under each other where they do not.
pub proof fn law_how_measured_buttons_stand(
    labels: Seq<i32>,
    shields: Seq<bool>,
    least: int,
    x: int,
    y: int,
    w: int,
    i: int,
)
    requires
        labels.len() == shields.len(),
        0 <= i < labels.len() - 1,
    ensures
        ({
            let a = measured_places(labels, shields, least, x, y, w, 96, i);
            let b = measured_places(labels, shields, least, x, y, w, 96, i + 1);
            &&& !stacks(labels, shields, least, w, 96) ==> b.0 == a.0 + a.2 + 8 && b.1 == a.1
            &&& stacks(labels, shields, least, w, 96) ==> b.0 == a.0 && b.1 == a.1 + a.3 + 6
            &&& a.3 == 28 && b.3 == 28
            &&& a.2 == measured_width(labels[i] as int, shields[i], least, 96)
        }),
        measured_places(labels, shields, least, x, y, w, 96, 0).0 == x,
        measured_places(labels, shields, least, x, y, w, 96, 0).1 == y,
{
    assert((i + 1) * 34 == i * 34 + 34) by (nonlinear_arith);
}

/// In the header the logo stands at the left, the name and the tagline beside it and one
/// under the other, and the gear at the right, with nothing over anything else.
pub proof fn law_nothing_covers_the_header(x: int, y: int, w: int)
    requires
        w >= 80,
    ensures
        ({
            let logo = logo_spot(x, y, 96);
            let title = title_spot(x, y, w, 96);
            let tag = tagline_spot(x, y, w, 96);
            let gear = gear_spot(x, y, w, 96);
            &&& logo == (x, y, 34int, 34int)
            &&& title.0 == logo.0 + logo.2 + 10 && title.1 == y
            &&& title.0 + title.2 + 6 == gear.0
            &&& gear.0 + gear.2 == x + w
            &&& gear.1 == y + 2
            &&& tag.0 == title.0 && tag.1 == title.1 + title.3 && tag.2 == title.2
        }),
{
}

/// The text beside a rule keeps clear of it and fills the rest of the column.
pub proof fn law_text_stands_beside_the_rule(x: int, w: int, dpi: int)
    ensures
        explained_column(x, w, 96) == (x + 12, w - 12),
        explained_column(x, w, dpi).0 + explained_column(x, w, dpi).1 == x + w,
        rule_width(dpi) >= 1,
        rule_width(96) == 2,
{
}

/// A column keeps its padding on both sides; the halves of a row are the same width and
/// stand beside each other; the About header's texts stand beside its logo.
pub proof fn law_columns_halves_and_the_about_header(x: int, y: int, w: int, h: int, pad: int)
    requires
        0 <= w,
        0 <= pad,
        0 <= h,
    ensures
        column_of(w, pad, 96) == (pad, pad, w - 2 * pad),
        ({
            let (a, b) = half_spots(x, y, w, h, 96);
            &&& a.0 == x && a.1 == y && b.1 == y
            &&& b.0 == a.0 + a.2 && a.2 == b.2
            &&& w - 1 <= a.2 + b.2 <= w
            &&& a.3 == h && b.3 == h
        }),
        ({
            let (logo, name, caption) = about_spots(x, y, w, 96);
            &&& logo == (x, y, 40int, 40int)
            &&& name.0 == x + 52 && name.1 == y && name.0 + name.2 == x + w
            &&& caption.0 == name.0 && caption.1 == name.1 + name.3 && caption.2 == name.2
        }),
{
}

} // verus!
