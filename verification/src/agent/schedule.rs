//! When the agent tries again: the re-injection midpoint, the backoffs, and the
//! rule on which ticket is this machine's own.

use crate::config::{Grant, GrantModel};
use crate::text;
use vstd::prelude::*;
use vstd::string::*;

verus! {

/// Escalate the "sign in again" notification this close to End Time.
pub const ESCALATE_SECS: i64 = 1200;

/// Floor on the re-injection delay, so a short-lived ticket cannot spin.
pub const MIN_REFRESH_DELAY: i64 = 60;

/// Never schedule a re-injection closer than this to End Time.
pub const EXPIRY_GRACE: i64 = 30;

/// How long to wait before another go at the autostart sign-in: the first step
/// of the backoff a network failure keeps doubling from.
pub const STARTUP_RETRY_SECS: i64 = 5;

/// How long between retries for a startup failure that is *not* the network's --
/// an explicit refusal, or no credential to be silent with. None of those
/// resolve themselves by being asked again sooner.
pub const STARTUP_RETRY_BOUNDED_SECS: i64 = 20;

/// How many times a non-network startup failure retries before it stops.
pub const STARTUP_RETRIES: u8 = 3;

/// When a device grant's deadline starts being worth saying out loud -- for the
/// status surface's clock and for the notification alike, so the two cannot
/// disagree about what "soon" is.
pub const GRANT_DUE_SOON_SECS: i64 = 604_800;

/// How long transport has to have been failing before the surface says so.
pub const FLAKY_QUIET_SECS: i64 = 900;

/// How long after a transport failure to ask the broker for `/config` again.
pub const PROBE_FIRST_SECS: i64 = 30;

/// The ceiling that every backoff doubles to.
pub const PROBE_MAX_SECS: i64 = 600;

/// How often to look for a vanished TGT (the NTLM-fallback signature).
pub const FALLBACK_POLL_SECS: i64 = 30;

/// How long after the last keystroke or click somebody still counts as being at
/// the machine.
pub const PRESENT_SECS: i64 = 300;

/// How rarely the grant deadline may be repeated once it has been said.
pub const GRANT_NOTIFY_INTERVAL: i64 = 86_400;

/// The clock readings that the agent computes with: well inside what an `i64`
/// of Unix seconds holds, so that no sum of two of them leaves it.
pub const TIME_LIMIT: i64 = 0x1000_0000_0000_0000;

/// A reading of the clock.
pub open spec fn clock(now: i64) -> bool {
    0 <= now <= TIME_LIMIT
}

/// A time that the agent may subtract the clock from.
pub open spec fn moment(t: i64) -> bool {
    -TIME_LIMIT <= t <= TIME_LIMIT
}

pub fn is_clock(now: i64) -> (r: bool)
    ensures
        r == clock(now),
{
    0 <= now && now <= TIME_LIMIT
}

pub fn is_moment(t: i64) -> (r: bool)
    ensures
        r == moment(t),
{
    -TIME_LIMIT <= t && t <= TIME_LIMIT
}

/// A value in `0..=span` drawn from `random`, and 0 for a span that is not
/// positive or without a random number.
pub open spec fn jitter_of(span: int, random: Option<u64>) -> int {
    match random {
        Some(r) if span > 0 => r as int % (span + 1),
        _ => 0,
    }
}

/// Half of what is left, which is nothing once the end has passed.
pub open spec fn half_life(now: int, end: int) -> int {
    if end > now {
        (end - now) / 2
    } else {
        0
    }
}

/// Halfway between now and expiry, pulled up to a tenth earlier at random,
/// floored so a short ticket cannot spin and clamped so the attempt lands
/// *before* End Time.
pub open spec fn midpoint_of(now: int, end: int, random: Option<u64>) -> int {
    let half = half_life(now, end);
    let wanted = half - jitter_of(half / 10, random);
    let delay = if wanted < MIN_REFRESH_DELAY {
        MIN_REFRESH_DELAY as int
    } else {
        wanted
    };
    let at = if now + delay < end - EXPIRY_GRACE {
        now + delay
    } else {
        end - EXPIRY_GRACE
    };
    if at > now {
        at
    } else {
        now + 1
    }
}

/// `getrandom::fill` into eight bytes, read as a little-endian number; `None`
/// where the system has no randomness to give. Nothing is claimed of the number.
#[verifier::external_body]
pub(crate) fn random_number() -> (r: Option<u64>) {
    let mut buf = [0u8; 8];
    getrandom::fill(&mut buf).ok().map(|_| u64::from_le_bytes(buf))
}

/// The jitter that a random number gives.
pub fn jitter_with(span: i64, random: Option<u64>) -> (r: i64)
    ensures
        r == jitter_of(span as int, random),
        0 <= r,
        span > 0 ==> r <= span,
        span <= 0 ==> r == 0,
{
    match random {
        Some(n) => if span > 0 {
            (n % (span as u64 + 1)) as i64
        } else {
            0
        },
        None => 0,
    }
}

/// A uniform value in `0..=span` seconds, and 0 for a span that is not positive.
///
/// Without randomness it degrades to the unjittered schedule rather than to an
/// error: this spreads load, it decides nothing about identity.
pub fn jitter(span: i64) -> (r: i64)
    ensures
        exists|random: Option<u64>| r == #[trigger] jitter_of(span as int, random),
        0 <= r,
        span > 0 ==> r <= span,
        span <= 0 ==> r == 0,
{
    let random = random_number();
    jitter_with(span, random)
}

/// Times between which a midpoint can be computed: what is left, the floor after now and
/// the grace before the end are times too.
pub open spec fn schedulable(now: i64, end: i64) -> bool {
    &&& i64::MIN <= end - now <= i64::MAX
    &&& now + MIN_REFRESH_DELAY <= i64::MAX
    &&& i64::MIN <= end - EXPIRY_GRACE
}

/// The next re-injection, for a given random number.
pub fn midpoint_with(now: i64, end: i64, random: Option<u64>) -> (r: i64)
    requires
        schedulable(now, end),
    ensures
        r == midpoint_of(now as int, end as int, random),
{
    let half: i64 = if end > now {
        (end - now) / 2
    } else {
        0
    };
    let wanted: i64 = half - jitter_with(half / 10, random);
    let delay: i64 = if wanted < MIN_REFRESH_DELAY {
        MIN_REFRESH_DELAY
    } else {
        wanted
    };
    let at: i64 = if now + delay < end - EXPIRY_GRACE {
        now + delay
    } else {
        end - EXPIRY_GRACE
    };
    if at > now {
        at
    } else {
        now + 1
    }
}

/// The next re-injection.
pub fn midpoint(now: i64, end: i64) -> (r: i64)
    requires
        schedulable(now, end),
    ensures
        exists|random: Option<u64>|
            r == #[trigger] midpoint_of(now as int, end as int, random),
{
    let random = random_number();
    midpoint_with(now, end, random)
}

/// Twice the last interval, clamped to `first..=max`.
pub open spec fn backoff_of(held: int, first: int, max: int) -> int {
    if held * 2 < first {
        first
    } else if held * 2 > max {
        max
    } else {
        held * 2
    }
}

/// How long to wait after the previous attempt in a backoff series.
///
/// Doubling rather than a fixed period because the cases this serves are far
/// apart -- a machine that booted seconds ahead of its network wants to be told
/// quickly, and one whose broker is off for the weekend must not spend two days
/// asking every thirty seconds.
pub fn next_backoff(held: i64, first: i64, max: i64) -> (r: i64)
    requires
        first <= max,
        -0x4000_0000_0000_0000 <= held < 0x4000_0000_0000_0000,
    ensures
        r == backoff_of(held as int, first as int, max as int),
{
    let doubled: i64 = held * 2;
    if doubled < first {
        first
    } else if doubled > max {
        max
    } else {
        doubled
    }
}

/// Whether the ticket in the cache is one this machine's own grant produced.
///
/// True whenever no grant is held, because then there is nothing for a ticket to
/// disagree with. With a grant, the only evidence is the principal that grant
/// last obtained; one that has never run an exchange trusts the cache only where
/// no account is pinned, since then there is nobody else it could be.
pub open spec fn grants_own(grant: Option<GrantModel>, pinned: bool, principal: Seq<char>) -> bool {
    match grant {
        None => true,
        Some(g) => match g.principal {
            None => !pinned,
            Some(p) => p == principal,
        },
    }
}

pub fn is_the_grants(grant: Option<&Grant>, pinned: bool, principal: &str) -> (r: bool)
    ensures
        r == grants_own(
            match grant {
                Some(g) => Some(g@),
                None => None,
            },
            pinned,
            principal@,
        ),
{
    match grant {
        None => true,
        Some(g) => match &g.principal {
            None => !pinned,
            Some(p) => text::same(p.as_str(), principal),
        },
    }
}

/// Days to a deadline, rounded up and never below one, like the rest of the UI: a
/// 30-day grant reads as 30.
pub open spec fn days_to(deadline: int, now: int) -> int {
    if deadline - now <= 0 {
        1
    } else {
        (deadline - now + 86_399) / 86_400
    }
}

pub fn days_left(deadline: i64, now: i64) -> (r: i64)
    requires
        deadline - now <= i64::MAX,
    ensures
        r == days_to(deadline as int, now as int),
        r >= 1,
{
    if deadline <= now {
        1
    } else {
        (deadline - now - 1) / 86_400 + 1
    }
}

// ------------------------------------------------------------------------ laws

/// Whatever the random number, a re-injection is always in the future and always before
/// End Time, with the grace to spare as long as there is that much time left at all. It
/// waits out the floor where there is room to, and never longer than half of what is left
/// or the floor.
pub proof fn law_a_renewal_lands_before_expiry(now: int, end: int, random: Option<u64>)
    ensures
        midpoint_of(now, end, random) > now,
        end - now >= 2 ==> midpoint_of(now, end, random) < end,
        end - now > EXPIRY_GRACE ==> midpoint_of(now, end, random) <= end - EXPIRY_GRACE,
        midpoint_of(now, end, random) >= end - EXPIRY_GRACE || midpoint_of(now, end, random) >= now
            + MIN_REFRESH_DELAY,
        midpoint_of(now, end, random) <= now + MIN_REFRESH_DELAY || midpoint_of(now, end, random)
            <= now + (end - now) / 2,
{
}

/// The jitter only ever moves a renewal earlier, by at most a tenth of the delay,
/// and never below the floor.
pub proof fn law_jitter_only_subtracts(now: int, end: int, random: Option<u64>)
    ensures
        midpoint_of(now, end, random) <= midpoint_of(now, end, None),
        midpoint_of(now, end, None) - midpoint_of(now, end, random) <= half_life(now, end) / 10,
        end - now >= MIN_REFRESH_DELAY + EXPIRY_GRACE ==> midpoint_of(now, end, random) >= now
            + MIN_REFRESH_DELAY,
{
    let span = half_life(now, end) / 10;
    if let Some(r) = random {
        if span > 0 {
            assert(0 <= r as int % (span + 1) <= span);
        }
    }
}

/// A backoff stays between its floor and its ceiling, never shrinks, and a lost
/// interval restarts at the floor.
pub proof fn law_a_backoff_stays_in_its_bounds(held: int, first: int, max: int)
    requires
        0 < first <= max,
    ensures
        first <= backoff_of(held, first, max) <= max,
        first <= held <= max ==> backoff_of(held, first, max) >= held,
        backoff_of(0, first, max) == first,
        backoff_of(max, first, max) == max,
{
}

/// Any draw is as likely as any other: the random number is folded into `0..=span` round
/// and round, and without one nothing is drawn.
pub proof fn law_a_draw_is_even(span: int, r: u64)
    requires
        span > 0,
    ensures
        r <= span ==> jitter_of(span, Some(r)) == r,
        r + span + 1 <= u64::MAX ==> jitter_of(span, Some((r + span + 1) as u64)) == jitter_of(
            span,
            Some(r),
        ),
        0 <= jitter_of(span, Some(r)) <= span,
        jitter_of(span, None) == 0,
{
    if r <= span {
        vstd::arithmetic::div_mod::lemma_small_mod(r as nat, (span + 1) as nat);
    }
    vstd::arithmetic::div_mod::lemma_mod_add_multiples_vanish(r as int, span + 1);
    vstd::arithmetic::div_mod::lemma_mod_bound(r as int, span + 1);
}

/// A ticket with two minutes or more to live is renewed halfway to its end, up to a tenth
/// of that earlier; a shorter one after a minute, or half a minute before its end; and one
/// that is as good as over at once.
pub proof fn law_a_renewal_is_halfway(now: int, end: int, random: Option<u64>)
    ensures
        end - now >= 120 ==> midpoint_of(now, end, None) == now + (end - now) / 2,
        end - now >= 140 ==> now + (end - now) / 2 - (end - now) / 2 / 10 <= midpoint_of(
            now,
            end,
            random,
        ) <= now + (end - now) / 2,
        90 <= end - now < 120 ==> midpoint_of(now, end, random) == now + 60,
        30 < end - now < 90 ==> midpoint_of(now, end, random) == end - 30,
        end - now <= 30 ==> midpoint_of(now, end, random) == now + 1,
        end - now >= 140 ==> (random matches Some(r) ==> r <= (end - now) / 2 / 10
            ==> midpoint_of(now, end, random) == now + (end - now) / 2 - r),
{
    let half = half_life(now, end);
    let span = half / 10;
    if let Some(r) = random {
        if span > 0 {
            law_a_draw_is_even(span, r);
        }
    }
}

/// Between its bounds a backoff doubles.
pub proof fn law_a_backoff_doubles(held: int, first: int, max: int)
    requires
        0 < first <= max,
    ensures
        first <= held * 2 <= max ==> backoff_of(held, first, max) == held + held,
        held * 2 < first ==> backoff_of(held, first, max) == first,
        held * 2 > max ==> backoff_of(held, first, max) == max,
{
}

/// A deadline is counted in days begun: so many days cover it, and one fewer would not. One
/// that has passed still reads as a day.
pub proof fn law_days_are_counted_as_begun(deadline: int, now: int)
    ensures
        deadline > now ==> (days_to(deadline, now) - 1) * 86_400 < deadline - now <= days_to(
            deadline,
            now,
        ) * 86_400,
        deadline <= now ==> days_to(deadline, now) == 1,
{
}

/// Whose ticket it is: without a grant there is nothing to disagree with; a grant that has
/// been used knows its principal, and takes no other; one that has not been used takes
/// whatever is there, unless an account is pinned.
pub proof fn law_whose_ticket_it_is(g: GrantModel, p: Seq<char>, pinned: bool, principal: Seq<char>)
    ensures
        grants_own(None, pinned, principal),
        g.principal is None ==> grants_own(Some(g), pinned, principal) == !pinned,
        g.principal == Some(p) ==> (grants_own(Some(g), pinned, principal) <==> principal == p),
{
}

} // verus!
