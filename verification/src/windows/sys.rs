//! Geometry, DPI scaling, packed words and wide strings.

use crate::text::chars_of;
use vstd::prelude::*;
use vstd::string::*;
use vstd::utf8::*;

verus! {

/// Logical (96-DPI) pixels as physical ones, towards zero: a measure that points the
/// other way scales as far.
pub open spec fn dip_of(v: int, dpi: int) -> int {
    if v >= 0 {
        v * dpi / 96
    } else {
        -((-v) * dpi / 96)
    }
}

/// Logical pixels to physical, in a width that holds them all.
pub(crate) fn dip_wide(v: i32, dpi: u32) -> (r: i64)
    ensures
        r == dip_of(v as int, dpi as int),
        v >= 0 ==> 0 <= r,
        -0x200_0000_0000_0000 <= r <= 0x200_0000_0000_0000,
{
    proof {
        assert(-0x8000_0000 * 0xffff_ffff <= v * dpi <= 0x8000_0000 * 0xffff_ffff && (v >= 0 ==> v
            * dpi >= 0) && (v < 0 ==> v * dpi <= 0) && (-v) * dpi == -(v * dpi))
            by (nonlinear_arith)
            requires
                -0x8000_0000 <= v <= 0x7fff_ffff,
                0 <= dpi <= 0xffff_ffff,
        ;
    }
    let product: i64 = v as i64 * dpi as i64;
    if product >= 0 {
        product / 96
    } else {
        -(-product / 96)
    }
}

/// Logical (96-DPI) pixels to physical, for the given window DPI.
pub fn dip(v: i32, dpi: u32) -> (r: i32)
    requires
        coordinate(dip_of(v as int, dpi as int)),
    ensures
        r == dip_of(v as int, dpi as int),
{
    dip_wide(v, dpi) as i32
}

/// A rectangle's edges.
#[derive(Clone, Copy, PartialEq, Eq, Debug, Structural)]
pub struct Rect {
    pub left: i32,
    pub top: i32,
    pub right: i32,
    pub bottom: i32,
}

/// A coordinate that an `i32` holds.
pub open spec fn coordinate(v: int) -> bool {
    i32::MIN <= v <= i32::MAX
}

/// A coordinate that is not off the top left of the screen.
pub open spec fn shown(v: int) -> int {
    if v > 0 {
        v
    } else {
        0
    }
}

/// Where a popup anchors: the work-area corner nearest the tray. The taskbar edge
/// is inferred from how the work area is inset.
pub open spec fn anchored(area: Option<Rect>, w: int, h: int, margin: int) -> (int, int) {
    match area {
        None => (120, 120),
        Some(r) => if r.top > 0 {
            (shown(r.right - w - margin), shown(r.top + margin))
        } else if r.left > 0 {
            (shown(r.left + margin), shown(r.bottom - h - margin))
        } else {
            (shown(r.right - w - margin), shown(r.bottom - h - margin))
        },
    }
}

fn not_below_zero(v: i32) -> (r: i32)
    ensures
        r == shown(v as int),
{
    if v > 0 {
        v
    } else {
        0
    }
}

/// A work area and a popup whose place there can be computed.
pub open spec fn anchorable(r: Rect, w: int, h: int, margin: int) -> bool {
    &&& r.top > 0 || r.left <= 0 ==> coordinate(r.right - w) && coordinate(r.right - w - margin)
    &&& r.top > 0 ==> coordinate(r.top + margin)
    &&& r.top <= 0 && r.left > 0 ==> coordinate(r.left + margin)
    &&& r.top <= 0 ==> coordinate(r.bottom - h) && coordinate(r.bottom - h - margin)
}

/// Top-left that anchors a popup to the work-area corner nearest the tray, all in
/// physical pixels. Without a work area the popup stands at a fixed place.
pub fn anchor_pos(area: Option<Rect>, w: i32, h: i32, margin: i32) -> (r: (i32, i32))
    requires
        area matches Some(a) ==> anchorable(a, w as int, h as int, margin as int),
    ensures
        (r.0 as int, r.1 as int) == anchored(area, w as int, h as int, margin as int),
{
    match area {
        None => (120, 120),
        Some(r) => if r.top > 0 {
            // taskbar top -> top-right
            (not_below_zero(r.right - w - margin), not_below_zero(r.top + margin))
        } else if r.left > 0 {
            // taskbar left -> bottom-left
            (not_below_zero(r.left + margin), not_below_zero(r.bottom - h - margin))
        } else {
            // taskbar bottom, right or hidden -> bottom-right
            (not_below_zero(r.right - w - margin), not_below_zero(r.bottom - h - margin))
        },
    }
}

/// Half of a length, rounded towards zero.
pub open spec fn halved(v: int) -> int {
    if v >= 0 {
        v / 2
    } else {
        -((-v) / 2)
    }
}

/// Where a centered window stands.
pub open spec fn centered(area: Option<Rect>, w: int, h: int) -> (int, int) {
    match area {
        None => (120, 120),
        Some(r) => (
            shown(r.left + halved(r.right - r.left - w)),
            shown(r.top + halved(r.bottom - r.top - h)),
        ),
    }
}

fn half(v: i32) -> (r: i32)
    ensures
        r == halved(v as int),
{
    half_wide(v as i64) as i32
}

/// Half of a length, in a width that holds every sum of coordinates.
pub(crate) fn half_wide(v: i64) -> (r: i64)
    requires
        i64::MIN < v,
    ensures
        r == halved(v as int),
{
    if v >= 0 {
        v / 2
    } else {
        -(-v / 2)
    }
}

/// A length between two edges, and a window in the middle of it, that can be computed.
pub open spec fn centerable(from: int, to: int, length: int) -> bool {
    &&& coordinate(to - from)
    &&& coordinate(to - from - length)
    &&& coordinate(from + halved(to - from - length))
}

/// Center a window on the work area.
pub fn center_on_work_area(area: Option<Rect>, w: i32, h: i32) -> (r: (i32, i32))
    requires
        area matches Some(a) ==> centerable(a.left as int, a.right as int, w as int)
            && centerable(a.top as int, a.bottom as int, h as int),
    ensures
        (r.0 as int, r.1 as int) == centered(area, w as int, h as int),
{
    match area {
        None => (120, 120),
        Some(r) => (
            not_below_zero(r.left + half((r.right - r.left) - w)),
            not_below_zero(r.top + half((r.bottom - r.top) - h)),
        ),
    }
}

/// Low word of a packed word.
pub fn loword(v: usize) -> (r: u32)
    ensures
        r == v as int % 0x1_0000,
{
    (v % 0x1_0000) as u32
}

/// High word of a packed word.
pub fn hiword(v: usize) -> (r: u16)
    ensures
        r == v as int / 0x1_0000 % 0x1_0000,
{
    (v / 0x1_0000 % 0x1_0000) as u16
}

/// One character in UTF-16.
pub open spec fn utf16_of(c: char) -> Seq<u16> {
    let n = c as u32;
    if n < 0x1_0000 {
        seq![n as u16]
    } else {
        seq![(0xd800 + (n - 0x1_0000) / 0x400) as u16, (0xdc00 + (n - 0x1_0000) % 0x400) as u16]
    }
}

/// A text in UTF-16.
pub open spec fn utf16(s: Seq<char>) -> Seq<u16>
    decreases s.len(),
{
    if s.len() == 0 {
        Seq::empty()
    } else {
        utf16(s.drop_last()) + utf16_of(s.last())
    }
}

/// A unit that stands for a character above the basic plane together with the one after
/// it.
pub open spec fn is_high(u: u16) -> bool {
    0xd800 <= u <= 0xdbff
}

/// The unit after that one.
pub open spec fn is_low(u: u16) -> bool {
    0xdc00 <= u <= 0xdfff
}

/// The character that a pair of such units stands for.
pub open spec fn paired(high: u16, low: u16) -> char {
    (0x1_0000 + (high - 0xd800) * 0x400 + (low - 0xdc00)) as char
}

/// A character in front of a text.
pub open spec fn led_by(c: char, rest: Option<Seq<char>>) -> Option<Seq<char>> {
    match rest {
        Some(s) => Some(seq![c] + s),
        None => None,
    }
}

/// The text that UTF-16 units stand for; none where one half of a pair is without the
/// other.
pub open spec fn text_of(units: Seq<u16>) -> Option<Seq<char>>
    decreases units.len(),
{
    if units.len() == 0 {
        Some(Seq::empty())
    } else if !is_high(units[0]) && !is_low(units[0]) {
        led_by(units[0] as char, text_of(units.skip(1)))
    } else if is_high(units[0]) && units.len() > 1 && is_low(units[1]) {
        led_by(paired(units[0], units[1]), text_of(units.skip(2)))
    } else {
        None
    }
}

/// UTF-16, NUL-terminated -- for the many calls that want it. Without the terminator, it
/// is the text again.
pub fn wide(s: &str) -> (r: Vec<u16>)
    ensures
        r@ == utf16(s@).push(0),
        r@.last() == 0,
        text_of(r@.drop_last()) == Some(s@),
{
    let v = chars_of(s);
    let mut out: Vec<u16> = Vec::new();
    let mut i: usize = 0;
    assert(v@.take(0) =~= Seq::empty());
    while i < v.len()
        invariant
            i <= v@.len(),
            out@ == utf16(v@.take(i as int)),
        decreases v@.len() - i,
    {
        let c: u32 = v[i] as u32;
        proof {
            assert(v@.take(i + 1).drop_last() =~= v@.take(i as int));
            assert(v@.take(i + 1).last() == v@[i as int]);
            char_is_scalar(v@[i as int]);
        }
        let ghost before = out@;
        if c < 0x1_0000 {
            out.push(c as u16);
            assert(out@ =~= before + utf16_of(v@[i as int]));
        } else {
            let over: u32 = c - 0x1_0000;
            out.push((0xd800 + over / 0x400) as u16);
            out.push((0xdc00 + over % 0x400) as u16);
            assert(out@ =~= before + utf16_of(v@[i as int]));
        }
        i = i + 1;
    }
    assert(v@.take(i as int) =~= s@);
    proof {
        law_utf16_reads_back(s@);
        assert(out@.push(0).drop_last() =~= out@);
    }
    out.push(0);
    out
}

/// How many units a font's face name holds.
pub const FACE_MAX: usize = 32;

/// A font's face name: as much as fits, padded with terminators.
pub open spec fn face_of(name: Seq<char>) -> Seq<u16> {
    let w = utf16(name);
    Seq::new(
        FACE_MAX as nat,
        |i: int|
            if i < w.len() && i < 31 {
                w[i]
            } else {
                0
            },
    )
}

pub fn face_name(name: &str) -> (r: Vec<u16>)
    ensures
        r@ == face_of(name@),
{
    let w = wide(name);
    let mut out: Vec<u16> = Vec::new();
    let mut i: usize = 0;
    while i < FACE_MAX
        invariant
            w@ == utf16(name@).push(0),
            i <= FACE_MAX,
            out@.len() == i,
            forall|k: int| 0 <= k < i ==> #[trigger] out@[k] == face_of(name@)[k],
        decreases FACE_MAX - i,
    {
        if i < 31 && i + 1 < w.len() {
            out.push(w[i]);
        } else {
            out.push(0);
        }
        i = i + 1;
    }
    assert(out@ =~= face_of(name@));
    out
}

/// The pixels of a picture with the byte order of a Windows bitmap: blue, green,
/// red, alpha.
pub open spec fn bgra_of(rgba: Seq<u8>) -> Seq<u8> {
    Seq::new(
        rgba.len(),
        |i: int|
            if i % 4 == 0 {
                rgba[i + 2]
            } else if i % 4 == 2 {
                rgba[i - 2]
            } else {
                rgba[i]
            },
    )
}

/// Straight-alpha RGBA to the byte order of a Windows bitmap.
pub fn to_bgra(rgba: &Vec<u8>) -> (r: Vec<u8>)
    requires
        rgba@.len() % 4 == 0,
    ensures
        r@ == bgra_of(rgba@),
{
    let mut out: Vec<u8> = Vec::new();
    let mut i: usize = 0;
    while i < rgba.len()
        invariant
            i <= rgba.len(),
            i % 4 == 0,
            rgba@.len() % 4 == 0,
            out@ == bgra_of(rgba@).take(i as int),
        decreases rgba@.len() - i,
    {
        assert(i + 4 <= rgba.len());
        let ghost before = out@;
        out.push(rgba[i + 2]);
        out.push(rgba[i + 1]);
        out.push(rgba[i]);
        out.push(rgba[i + 3]);
        assert(bgra_of(rgba@).take(i + 4) =~= before + seq![
            rgba@[i + 2],
            rgba@[i + 1],
            rgba@[i as int],
            rgba@[i + 3],
        ]);
        i = i + 4;
    }
    assert(bgra_of(rgba@).take(i as int) =~= bgra_of(rgba@));
    out
}

// ------------------------------------------------------------------------ laws

/// A popup that fits stands whole inside a work area on the screen, with its
/// margin.
pub proof fn law_a_popup_stays_inside_the_work_area(area: Rect, w: int, h: int, margin: int)
    requires
        0 <= area.left <= area.right,
        0 <= area.top <= area.bottom,
        0 <= w,
        0 <= h,
        0 <= margin,
        w + 2 * margin <= area.right - area.left,
        h + 2 * margin <= area.bottom - area.top,
    ensures
        ({
            let (x, y) = anchored(Some(area), w, h, margin);
            area.left + margin <= x && x + w + margin <= area.right && area.top + margin <= y && y
                + h + margin <= area.bottom
        }),
{
}

/// The words of a packed word are its halves.
pub proof fn law_words_pack(low: int, high: int)
    requires
        0 <= low < 0x1_0000,
        0 <= high < 0x1_0000,
    ensures
        (high * 0x1_0000 + low) % 0x1_0000 == low,
        (high * 0x1_0000 + low) / 0x1_0000 % 0x1_0000 == high,
{
}

/// A text's first character is encoded first.
proof fn first_comes_first(s: Seq<char>)
    requires
        s.len() > 0,
    ensures
        utf16(s) == utf16_of(s[0]) + utf16(s.skip(1)),
    decreases s.len(),
{
    if s.len() == 1 {
        assert(s.drop_last() =~= Seq::empty());
        assert(s.skip(1) =~= Seq::empty());
        assert(utf16(s) =~= utf16_of(s[0]) + utf16(s.skip(1)));
    } else {
        let front = s.drop_last();
        first_comes_first(front);
        assert(front.skip(1) =~= s.skip(1).drop_last());
        assert(s.skip(1).last() == s.last());
        assert(utf16(s) =~= utf16_of(s[0]) + utf16(s.skip(1)));
    }
}

/// The units of one character, and what they are read as in front of others.
proof fn one_reads_back(c: char, rest: Seq<u16>)
    ensures
        text_of(utf16_of(c) + rest) == led_by(c, text_of(rest)),
{
    let n = c as u32;
    let units = utf16_of(c) + rest;
    char_is_scalar(c);
    if n < 0x1_0000 {
        assert(units[0] == n as u16);
        assert(units[0] as char == c);
        assert(units.skip(1) =~= rest);
    } else {
        let (high, low) = (units[0], units[1]);
        assert(high == 0xd800 + (n - 0x1_0000) / 0x400);
        assert(low == 0xdc00 + (n - 0x1_0000) % 0x400);
        assert(paired(high, low) == c);
        assert(units.skip(2) =~= rest);
    }
}

/// Whatever the text, its UTF-16 is read back as that text.
pub proof fn law_utf16_reads_back(s: Seq<char>)
    ensures
        text_of(utf16(s)) == Some(s),
    decreases s.len(),
{
    if s.len() == 0 {
        assert(s =~= Seq::empty());
    } else {
        first_comes_first(s);
        law_utf16_reads_back(s.skip(1));
        one_reads_back(s[0], utf16(s.skip(1)));
        assert(seq![s[0]] + s.skip(1) =~= s);
    }
}

/// Units that stand for a text are the UTF-16 of that text and of no other.
pub proof fn law_a_text_has_one_utf16(units: Seq<u16>, s: Seq<char>)
    requires
        text_of(units) == Some(s),
    ensures
        units == utf16(s),
    decreases units.len(),
{
    if units.len() == 0 {
        assert(units =~= utf16(s));
    } else {
        let pair = is_high(units[0]);
        let (c, rest) = if pair {
            (paired(units[0], units[1]), units.skip(2))
        } else {
            (units[0] as char, units.skip(1))
        };
        let t = text_of(rest)->0;
        law_a_text_has_one_utf16(rest, t);
        assert(s[0] == c);
        assert(s.skip(1) =~= t);
        first_comes_first(s);
        assert(utf16_of(c) + rest =~= units);
    }
}

/// A length at 96 dots an inch is itself, at another resolution as many dots more or fewer,
/// rounded towards nothing, and on the other side of the origin the same.
pub proof fn law_a_length_scales(v: int, dpi: int)
    requires
        0 <= dpi,
    ensures
        dip_of(v, 96) == v,
        dip_of(-v, dpi) == -dip_of(v, dpi),
        v >= 0 ==> 96 * dip_of(v, dpi) <= v * dpi < 96 * dip_of(v, dpi) + 96,
        dip_of(v, 192) == 2 * v,
{
    assert((-v) * dpi == -(v * dpi)) by (nonlinear_arith);
    assert(-(-v) == v);
}

/// A popup stands in the corner next to the taskbar: below one at the top, beside one at the
/// left, and otherwise at the bottom right, a margin away. Without a work area it stands
/// somewhere visible.
pub proof fn law_where_a_popup_stands(area: Rect, w: int, h: int, margin: int)
    requires
        0 <= area.left,
        0 <= area.top,
        margin >= 0,
        area.right - w - margin >= 0,
        area.bottom - h - margin >= 0,
    ensures
        area.top > 0 ==> anchored(Some(area), w, h, margin) == (
            area.right - w - margin,
            area.top + margin,
        ),
        area.top == 0 && area.left > 0 ==> anchored(Some(area), w, h, margin) == (
            area.left + margin,
            area.bottom - h - margin,
        ),
        area.top == 0 && area.left == 0 ==> anchored(Some(area), w, h, margin) == (
            area.right - w - margin,
            area.bottom - h - margin,
        ),
        anchored(None, w, h, margin) == (120int, 120int),
{
}

/// A window in the middle has as much room on one side as on the other, to a dot.
pub proof fn law_the_middle_is_in_the_middle(area: Rect, w: int, h: int)
    requires
        0 <= area.left,
        0 <= area.top,
        0 <= w <= area.right - area.left,
        0 <= h <= area.bottom - area.top,
    ensures
        ({
            let (x, y) = centered(Some(area), w, h);
            &&& 0 <= (area.right - (x + w)) - (x - area.left) <= 1
            &&& 0 <= (area.bottom - (y + h)) - (y - area.top) <= 1
        }),
        centered(None, w, h) == (120int, 120int),
{
}

/// A character is one unit or, past the first plane, a high and a low surrogate that spell
/// it; a text is its characters' units in order.
pub proof fn law_what_utf16_is(s: Seq<char>, c: char)
    ensures
        (c as u32) < 0x1_0000 ==> utf16_of(c) == seq![c as u16],
        c as u32 >= 0x1_0000 ==> {
            let u = utf16_of(c);
            &&& u.len() == 2
            &&& 0xd800 <= u[0] <= 0xdbff
            &&& 0xdc00 <= u[1] <= 0xdfff
            &&& 0x1_0000 + (u[0] - 0xd800) * 0x400 + (u[1] - 0xdc00) == c as u32
        },
        utf16(s.push(c)) == utf16(s) + utf16_of(c),
        utf16(Seq::empty()) == Seq::<u16>::empty(),
{
    assert(s.push(c).drop_last() =~= s);
}

/// A font's name fills 32 units, the last of them zero: its own first, zeros after.
pub proof fn law_a_face_is_padded(name: Seq<char>, i: int)
    requires
        0 <= i < 32,
    ensures
        face_of(name).len() == 32,
        face_of(name)[31] == 0,
        i < 31 && i < utf16(name).len() ==> face_of(name)[i] == utf16(name)[i],
        i >= utf16(name).len() ==> face_of(name)[i] == 0,
{
}

/// Red and blue change places in every pixel; green and alpha stay.
pub proof fn law_red_and_blue_change_places(rgba: Seq<u8>, p: int)
    requires
        0 <= p,
        4 * p + 3 < rgba.len(),
    ensures
        bgra_of(rgba).len() == rgba.len(),
        bgra_of(rgba)[4 * p] == rgba[4 * p + 2],
        bgra_of(rgba)[4 * p + 1] == rgba[4 * p + 1],
        bgra_of(rgba)[4 * p + 2] == rgba[4 * p],
        bgra_of(rgba)[4 * p + 3] == rgba[4 * p + 3],
{
}

} // verus!
