//! What the state icon is made of: the mapping, the geometry, the halo and the glyph
//! threshold.
//!
//! Both agents draw the same mark with their own ink, and the two platforms differ in
//! exactly that one thing. Everything they are supposed to agree about is here, so
//! "exactly one thing" stays checkable rather than remembered.
//!
//! Nothing renders here. Every measure is in thousandths: of full strength, of the
//! icon, or of the badge's radius.

use crate::describe::Condition;
use vstd::prelude::*;

verus! {

/// Full strength, the whole icon, one radius.
pub const WHOLE: u32 = 1_000;

/// How much of the logo a condition that is not holding a usable ticket keeps.
pub const FADE: u32 = 400;

/// How big the badge is, of the icon.
pub const BADGE: u32 = 520;

/// The badge's radius, of the icon. The triangle is inscribed in the same box, so the
/// two shapes occupy one.
pub const DISC: u32 = 260;

/// A transparent ring this much bigger than the badge, so it separates from a mark
/// drawn in its own ink. Applied along the badge's own silhouette, not as a disc
/// around it -- a disc leaves the triangle's lower corners touching the mark.
pub const KNOCKOUT: u32 = 1_200;

/// The bang inside the triangle: the stem's two ends, then the dot, as offsets from
/// the badge's center. Placed against the triangle rather than centered in the box --
/// the shape narrows towards the apex, and the room is low.
pub const BANG_STEM: (i32, i32) = (-450, 200);

pub const BANG_DOT: i32 = 600;

/// Below this many pixels the glyph inside the badge is a smear rather than a mark, so
/// the shape goes bare. Nobody sees two sizes side by side, so changing character
/// across the threshold costs nothing.
pub const GLYPH_MIN: u32 = 24;

/// The warning triangle, as offsets from the badge's center in thousandths of its
/// radius. Apex up, base on the floor of the same box the disc fills, so the two
/// badges are the same height and sit on the same line.
///
/// Isosceles rather than equilateral: the badge box's right edge *is* the icon's right
/// edge, so a shape wider than the box is a shape clipped by the frame.
pub const WARN_VERTICES: [(i32, i32); 3] = [(0, -1_000), (-1_000, 1_000), (1_000, 1_000)];

/// Which silhouette the badge is. Two shapes, so color is the fast channel and not the
/// only one -- a triangle and a disc stay distinguishable at 8 px, and on a menu bar
/// shape is all there is.
#[derive(Clone, Copy, PartialEq, Eq, Debug, Structural)]
pub enum Badge {
    Warn,
    Stop,
}

/// The icon for a condition, on two independent axes.
///
/// **Weight is "nothing to see here"**: full strength means working with nothing
/// wrong, and every other condition is faded. Fading the mark is what the badge stands
/// on. **The badge is the fault**, at the two strengths the failure taxonomy already
/// distinguishes. It stays full strength in every state, so the eye lands on the thing
/// that is wrong rather than on the logo it is drawn over.
#[derive(Clone, Copy, PartialEq, Eq, Debug, Structural)]
pub struct Mark {
    /// How much of the logo's alpha is kept.
    pub fade: u32,
    pub badge: Option<Badge>,
}

/// The mark of a condition.
pub open spec fn mark_of(c: Condition) -> Mark {
    match c {
        Condition::Working => Mark { fade: WHOLE, badge: None },
        Condition::Flaky => Mark { fade: FADE, badge: Some(Badge::Warn) },
        Condition::WillStop => Mark { fade: FADE, badge: Some(Badge::Warn) },
        Condition::Stopped => Mark { fade: FADE, badge: Some(Badge::Stop) },
        Condition::NotStarted => Mark { fade: FADE, badge: None },
    }
}

pub fn mark(condition: Condition) -> (r: Mark)
    ensures
        r == mark_of(condition),
{
    match condition {
        Condition::Working => Mark { fade: WHOLE, badge: None },
        Condition::Flaky | Condition::WillStop => Mark { fade: FADE, badge: Some(Badge::Warn) },
        Condition::Stopped => Mark { fade: FADE, badge: Some(Badge::Stop) },
        Condition::NotStarted => Mark { fade: FADE, badge: None },
    }
}

/// A pixel's alpha once faded, to the nearest.
pub open spec fn faded(alpha: int, fade: int) -> int {
    (alpha * fade + 500) / 1_000
}

/// A pixel's alpha once faded. The fade lives in the alpha channel or, in an image
/// with one ink, it does not exist.
pub fn faded_alpha(alpha: u8, fade: u32) -> (r: u8)
    requires
        fade <= WHOLE,
    ensures
        r == faded(alpha as int, fade as int),
{
    proof {
        assert(alpha * fade <= 255_000) by (nonlinear_arith)
            requires
                0 <= alpha <= 255,
                0 <= fade <= 1_000,
        ;
        assert(0 <= alpha * fade) by (nonlinear_arith);
    }
    ((alpha as u32 * fade + 500) / 1_000) as u8
}

/// Where a badge stands, in thousandths of a pixel: in the icon's bottom right corner.
#[derive(Clone, Copy, PartialEq, Eq, Debug, Structural)]
pub struct BadgePlace {
    /// Its center, the same on both axes.
    pub center: u32,
    pub radius: u32,
    /// The width of the ring cleared around its outline.
    pub ring: u32,
}

/// Where the badge of an icon of `px` pixels stands.
pub fn badge_place(px: u32) -> (r: BadgePlace)
    requires
        px * 1_000 <= u32::MAX,
    ensures
        r.center == px * 1_000 - px * BADGE / 2,
        r.radius == px * DISC,
        r.ring == 2 * px * DISC * (KNOCKOUT - 1_000) / 1_000,
        r.center + r.radius == px * 1_000,
{
    BadgePlace {
        center: px * 1_000 - px * BADGE / 2,
        radius: px * DISC,
        ring: (2 * px as u64 * DISC as u64 * (KNOCKOUT as u64 - 1_000) / 1_000) as u32,
    }
}

/// Whether the badge carries its glyph at this size.
pub fn has_glyph(px: u32) -> (r: bool)
    ensures
        r == (px >= GLYPH_MIN),
{
    px >= GLYPH_MIN
}

// ------------------------------------------------------------------------ laws

/// One condition is drawn at full strength and it is the one with nothing to say.
/// Everything else fades, so whatever badge is on it has the contrast to be read.
pub proof fn law_only_working_is_full_strength(c: Condition)
    ensures
        mark_of(c).fade == WHOLE <==> c is Working,
        mark_of(c).badge is Some ==> mark_of(c).fade < WHOLE,
{
}

/// Both badges fill one box: the triangle reaches its floor and its ceiling, and is no
/// wider than the box, whose right edge is the icon's own.
pub proof fn law_both_badges_fill_one_box(i: int)
    requires
        0 <= i < 3,
    ensures
        -1_000 <= WARN_VERTICES@[i].0 <= 1_000,
        -1_000 <= WARN_VERTICES@[i].1 <= 1_000,
        WARN_VERTICES@[0].1 == -1_000,
        WARN_VERTICES@[1].1 == 1_000,
        BADGE == 2 * DISC,
{
}

/// Fading never makes a pixel stronger, and full strength leaves it as it is.
pub proof fn law_fading_only_fades(alpha: u8, fade: u32)
    requires
        fade <= WHOLE,
    ensures
        0 <= faded(alpha as int, fade as int) <= alpha,
        faded(alpha as int, WHOLE as int) == alpha,
{
    assert(0 <= alpha * fade <= alpha * 1_000) by (nonlinear_arith)
        requires
            0 <= alpha,
            0 <= fade <= 1_000,
    ;
}

/// Every condition has its own mark: whole while things work, faded otherwise, with a
/// warning where they may stop and a stop where they have.
pub proof fn law_every_condition_has_its_mark(c: Condition)
    ensures
        mark_of(c).badge == Some(Badge::Stop) <==> c == Condition::Stopped,
        mark_of(c).badge == Some(Badge::Warn) <==> c == Condition::Flaky || c
            == Condition::WillStop,
        mark_of(c).badge is None <==> c == Condition::Working || c == Condition::NotStarted,
        c == Condition::Working ==> mark_of(c).fade == 1_000,
        c != Condition::Working ==> mark_of(c).fade == 400,
{
}

/// Fading is to the nearest step, and keeps what is stronger stronger.
pub proof fn law_fading_is_to_the_nearest_step(a: int, b: int, fade: int)
    requires
        0 <= a <= b,
        0 <= fade <= 1_000,
    ensures
        faded(a, fade) <= faded(b, fade),
        -500 <= faded(a, fade) * 1_000 - a * fade <= 500,
{
    assert(a * fade <= b * fade) by (nonlinear_arith)
        requires
            0 <= a <= b,
            0 <= fade,
    ;
}

} // verus!
