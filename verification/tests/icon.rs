use kerbridge_client::describe::Condition;
use kerbridge_client::icon::{
    badge_place, faded_alpha, has_glyph, mark, Badge, Mark, FADE, WARN_VERTICES, WHOLE,
};

fn thousandths(n: u32) -> f32 {
    n as f32 / 1000.0
}

/// One condition is drawn at full strength and it is the one with nothing to say.
/// Everything else fades, so whatever badge is on it has the contrast to be read.
#[test]
fn only_working_is_full_strength() {
    assert_eq!(mark(Condition::Working), Mark { fade: WHOLE, badge: None });
    assert_eq!(thousandths(mark(Condition::Working).fade), 1.0);
    assert_eq!(thousandths(FADE), 0.4);
    for c in [Condition::Flaky, Condition::WillStop, Condition::Stopped, Condition::NotStarted] {
        assert_eq!(mark(c).fade, FADE, "{c:?}");
    }
    assert_eq!(mark(Condition::Flaky).badge, Some(Badge::Warn));
    assert_eq!(mark(Condition::WillStop).badge, Some(Badge::Warn));
    assert_eq!(mark(Condition::Stopped).badge, Some(Badge::Stop));
    // Never worked here, and nothing is wrong with that.
    assert_eq!(mark(Condition::NotStarted).badge, None);
}

/// The triangle sits in the box the disc fills, which is what puts the two badges on
/// one baseline. Inscribed in the disc instead, it floats half a radius above the floor.
#[test]
fn both_badges_fill_one_box() {
    let ys = WARN_VERTICES.map(|(_, y)| y as f32 / 1000.0);
    assert_eq!(ys.iter().cloned().fold(f32::MIN, f32::max), 1.0);
    assert_eq!(ys.iter().cloned().fold(f32::MAX, f32::min), -1.0);
    // And no wider than it is tall, or the icon's own edge clips it.
    for (x, _) in WARN_VERTICES {
        assert!((x as f32 / 1000.0).abs() <= 1.0);
    }
}

#[test]
fn fading_rounds_to_the_nearest() {
    for alpha in 0..=255u8 {
        let expected = (alpha as f32 * 0.4).round() as u8;
        assert_eq!(faded_alpha(alpha, FADE), expected, "{alpha}");
        assert_eq!(faded_alpha(alpha, WHOLE), alpha);
    }
}

#[test]
fn the_badge_stands_in_the_corner() {
    let b = badge_place(36);
    assert_eq!((b.center, b.radius, b.ring), (26_640, 9_360, 3_744));
    assert!(has_glyph(24) && !has_glyph(23));
}
