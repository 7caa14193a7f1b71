use kerbridge_client::agent::schedule::{
    days_left, is_the_grants, jitter_with, midpoint, midpoint_with, next_backoff, EXPIRY_GRACE,
    MIN_REFRESH_DELAY, PROBE_FIRST_SECS, PROBE_MAX_SECS, STARTUP_RETRY_SECS,
};
use kerbridge_client::agent::schedule::jitter;
use kerbridge_client::config::Grant;

fn grant(principal: Option<&str>) -> Grant {
    Grant {
        grant_id: "1a2b3c4d".into(),
        identity: "kb1|entra|subject".into(),
        principal: principal.map(str::to_owned),
        audience: "kerbridge://EXAMPLE.SITE".into(),
        sign_in_required_by: 1_785_000_000,
    }
}

/// The rule startup adoption turns on, and the reason it exists: the third case is a
/// `--no-grant` run's leftovers, which look exactly like a working session and are
/// somebody else's.
#[test]
fn only_the_grants_own_ticket_may_be_adopted() {
    for pinned in [true, false] {
        assert!(is_the_grants(None, pinned, "riku@EXAMPLE.SITE"), "pinned={pinned}");
    }

    let obtained = grant(Some("svc-builder@EXAMPLE.SITE"));
    assert!(is_the_grants(Some(&obtained), true, "svc-builder@EXAMPLE.SITE"));
    assert!(!is_the_grants(Some(&obtained), true, "riku@EXAMPLE.SITE"));
}

/// The backoff reaches its ceiling and stays there, and cannot be talked below its
/// floor -- which is what would turn the re-probe into a poll.
#[test]
fn the_probe_backs_off_to_a_ceiling() {
    let mut held = PROBE_FIRST_SECS;
    let mut seen = vec![held];
    for _ in 0..8 {
        held = next_backoff(held, PROBE_FIRST_SECS, PROBE_MAX_SECS);
        seen.push(held);
    }
    assert_eq!(seen, [30, 60, 120, 240, 480, 600, 600, 600, 600]);
    assert_eq!(
        next_backoff(0, PROBE_FIRST_SECS, PROBE_MAX_SECS),
        PROBE_FIRST_SECS,
        "a lost interval restarts, never spins"
    );
}

/// A failed silent renewal backs off from the floor a renewal can use, not from the
/// probe's: the first retry after a transient failure must be soon, not half a ticket
/// lifetime away.
#[test]
fn the_refresh_backs_off_from_the_floor_a_renewal_can_use() {
    let mut held = MIN_REFRESH_DELAY;
    let mut seen = vec![held];
    for _ in 0..5 {
        held = next_backoff(held, MIN_REFRESH_DELAY, PROBE_MAX_SECS);
        seen.push(held);
    }
    assert_eq!(seen, [60, 120, 240, 480, 600, 600]);
}

/// A startup failure keeps the tight first step the logon race wants, but backs off
/// from there instead of stopping after three.
#[test]
fn the_startup_retry_backs_off_instead_of_giving_up() {
    let mut held = STARTUP_RETRY_SECS;
    let mut seen = vec![held];
    for _ in 0..8 {
        held = next_backoff(held, STARTUP_RETRY_SECS, PROBE_MAX_SECS);
        seen.push(held);
    }
    assert_eq!(seen, [5, 10, 20, 40, 80, 160, 320, 600, 600]);
}

/// A grant that has never run an exchange, which is every grant on a machine that
/// upgraded holding one -- and the two answers are opposite for a reason.
#[test]
fn a_grant_that_has_never_run_an_exchange_trusts_the_cache_only_when_unpinned() {
    assert!(!is_the_grants(Some(&grant(None)), true, "riku@EXAMPLE.SITE"));
    assert!(is_the_grants(Some(&grant(None)), false, "riku@EXAMPLE.SITE"));
}

#[test]
fn a_renewal_lands_halfway_and_a_little_earlier() {
    // Ten hours: half is 18000 s, and the jitter takes at most a tenth of that.
    assert_eq!(midpoint_with(1_000, 37_000, None), 19_000);
    assert_eq!(midpoint_with(1_000, 37_000, Some(1_800)), 17_200);
    assert_eq!(midpoint_with(1_000, 37_000, Some(1_801)), 19_000);
    // A short ticket may not spin, and the attempt still lands before its end.
    assert_eq!(midpoint_with(1_000, 1_100, None), 1_060);
    assert_eq!(midpoint_with(1_000, 1_080, None), 1_080 - EXPIRY_GRACE);
    // One that is already over is tried again at once.
    assert_eq!(midpoint_with(1_000, 900, None), 1_001);
}

#[test]
fn a_random_renewal_stays_in_its_bounds() {
    for _ in 0..50 {
        let at = midpoint(0, 36_000);
        assert!((16_200..=18_000).contains(&at), "{at}");
        assert!((0..=9).contains(&jitter(9)));
    }
    assert_eq!(jitter(0), 0);
    assert_eq!(jitter(-4), 0);
    // Randomness is there at all: a hundred draws of a wide span are not one number.
    let first = jitter(1_000_000_000);
    assert!((0..100).any(|_| jitter(1_000_000_000) != first));
}

#[test]
fn jitter_is_the_remainder() {
    assert_eq!(jitter_with(9, Some(27)), 7);
    assert_eq!(jitter_with(9, None), 0);
    assert_eq!(jitter_with(i64::MAX, Some(u64::MAX)), i64::MAX);
}

#[test]
fn days_are_rounded_up_and_never_below_one() {
    assert_eq!(days_left(86_400 * 30, 0), 30);
    assert_eq!(days_left(86_400 * 30 + 1, 0), 31);
    assert_eq!(days_left(1, 0), 1);
    assert_eq!(days_left(0, 5), 1);
}

#[test]
fn a_renewal_can_be_computed_wherever_the_times_can() {
    assert_eq!(midpoint_with(i64::MAX - 60, i64::MAX, None), i64::MAX - 30);
    assert_eq!(midpoint_with(0, i64::MAX, None), i64::MAX / 2);
    assert_eq!(midpoint_with(i64::MIN, i64::MIN + 100, None), i64::MIN + 60);
    for end in 2..200 {
        let at = midpoint_with(0, end, Some(7));
        assert!(0 < at && at < end, "{end}");
        assert!(at >= (end - EXPIRY_GRACE).min(60) && at <= (end / 2).max(60), "{end}");
        assert!(end < 31 || at <= end - EXPIRY_GRACE, "{end}");
    }
}
