//! The DER that a KRB-CRED message is made of: tag, length and content, and the
//! five kinds of content a Kerberos structure holds.

use vstd::prelude::*;
use vstd::string::*;
use vstd::utf8::*;

verus! {

pub const TAG_BIT_STRING: u8 = 0x03;

pub const TAG_OCTET_STRING: u8 = 0x04;

pub const TAG_INTEGER: u8 = 0x02;

pub const TAG_GENERAL_STRING: u8 = 0x1b;

pub const TAG_GENERALIZED_TIME: u8 = 0x18;

pub const TAG_SEQUENCE: u8 = 0x30;

/// `n` as `width` big-endian octets.
pub open spec fn octets_of(n: nat, width: nat) -> Seq<u8>
    decreases width,
{
    if width == 0 {
        Seq::empty()
    } else {
        octets_of(n / 256, (width - 1) as nat).push((n % 256) as u8)
    }
}

pub fn octets(n: u64, width: usize) -> (r: Vec<u8>)
    ensures
        r@ == octets_of(n as nat, width as nat),
{
    let mut v: Vec<u8> = Vec::new();
    let mut rest: u64 = n;
    let mut left: usize = width;
    assert(octets_of(n as nat, width as nat) + Seq::<u8>::empty() =~= octets_of(
        n as nat,
        width as nat,
    ));
    while left > 0
        invariant
            octets_of(n as nat, width as nat) == octets_of(rest as nat, left as nat) + v@,
        decreases left,
    {
        let low: u8 = (rest % 256) as u8;
        assert(octets_of(rest as nat, left as nat) + v@ =~= octets_of(
            rest as nat / 256,
            (left - 1) as nat,
        ) + v@.insert(0, low));
        v.insert(0, low);
        rest = rest / 256;
        left = left - 1;
    }
    assert(octets_of(rest as nat, 0) + v@ =~= v@);
    v
}

/// `n` in as few big-endian octets as hold it.
pub open spec fn minimal_of(n: nat) -> Seq<u8>
    decreases n,
{
    if n < 256 {
        seq![n as u8]
    } else {
        minimal_of(n / 256).push((n % 256) as u8)
    }
}

pub fn minimal(n: u64) -> (r: Vec<u8>)
    ensures
        r@ == minimal_of(n as nat),
    decreases n,
{
    if n < 256 {
        let v: Vec<u8> = vec![n as u8];
        assert(v@ =~= seq![n as u8]);
        v
    } else {
        let mut v = minimal(n / 256);
        v.push((n % 256) as u8);
        v
    }
}

/// What big-endian octets stand for.
pub open spec fn number_of(s: Seq<u8>) -> nat
    decreases s.len(),
{
    if s.len() == 0 {
        0
    } else {
        number_of(s.drop_last()) * 256 + s.last() as nat
    }
}

/// The DER length octets of `n` bytes: one octet up to 127, otherwise a count of
/// octets and then the length in as few as hold it.
pub open spec fn length_of(n: nat) -> Seq<u8> {
    if n < 0x80 {
        seq![n as u8]
    } else {
        seq![(0x80 + minimal_of(n).len()) as u8] + minimal_of(n)
    }
}

/// Tag, DER length, content.
pub open spec fn tlv_of(tag: u8, content: Seq<u8>) -> Seq<u8> {
    seq![tag] + length_of(content.len()) + content
}

proof fn minimal_len(n: nat, k: nat)
    requires
        n < pow256(k),
        k > 0,
    ensures
        1 <= minimal_of(n).len() <= k,
    decreases k,
{
    if n >= 256 {
        assert(pow256(k) == 256 * pow256((k - 1) as nat));
        assert(k > 1) by {
            reveal_with_fuel(pow256, 2);
        }
        assert(n / 256 < pow256((k - 1) as nat));
        minimal_len(n / 256, (k - 1) as nat);
    }
}

/// 256 to the `k`.
pub open spec fn pow256(k: nat) -> nat
    decreases k,
{
    if k == 0 {
        1
    } else {
        256 * pow256((k - 1) as nat)
    }
}

pub fn tlv(tag: u8, content: &Vec<u8>) -> (r: Vec<u8>)
    ensures
        r@ == tlv_of(tag, content@),
{
    let mut out: Vec<u8> = vec![tag];
    let n: usize = content.len();
    if n < 0x80 {
        out.push(n as u8);
        assert(out@ =~= seq![tag] + length_of(n as nat));
    } else {
        let mut be = minimal(n as u64);
        proof {
            reveal_with_fuel(pow256, 9);
            minimal_len(n as nat, 8);
        }
        out.push(0x80 + be.len() as u8);
        out.append(&mut be);
        assert(out@ =~= seq![tag] + length_of(n as nat));
    }
    let mut i: usize = 0;
    let ghost head = out@;
    assert(content@.take(0) =~= Seq::empty());
    while i < n
        invariant
            i <= n == content@.len(),
            out@ == head + content@.take(i as int),
        decreases n - i,
    {
        assert(content@.take(i + 1) =~= content@.take(i as int).push(content@[i as int]));
        out.push(content[i]);
        i = i + 1;
    }
    assert(content@.take(n as int) =~= content@);
    out
}

/// `[n]`, constructed -- the context tag every Kerberos struct member carries.
pub open spec fn ctx_of(n: u8, content: Seq<u8>) -> Seq<u8> {
    tlv_of((0xa0 + n) as u8, content)
}

pub fn ctx(n: u8, content: &Vec<u8>) -> (r: Vec<u8>)
    requires
        n < 0x20,
    ensures
        r@ == ctx_of(n, content@),
{
    tlv(0xa0 + n, content)
}

/// The content octets of a DER `INTEGER`. Of a number that is not negative, the
/// fewest that hold it without the first of them having its high bit set, which
/// would make it a negative one. Of a negative number, all eight of its
/// two's-complement octets.
pub open spec fn integer_content_of(v: int) -> Seq<u8> {
    if v < 0 {
        octets_of((v + 0x1_0000_0000_0000_0000) as nat, 8)
    } else if minimal_of(v as nat)[0] >= 0x80 {
        seq![0u8] + minimal_of(v as nat)
    } else {
        minimal_of(v as nat)
    }
}

pub open spec fn integer_of(v: int) -> Seq<u8> {
    tlv_of(TAG_INTEGER, integer_content_of(v))
}

proof fn minimal_nonempty(n: nat)
    ensures
        minimal_of(n).len() >= 1,
    decreases n,
{
    if n >= 256 {
        minimal_nonempty(n / 256);
    }
}

pub fn integer(v: i64) -> (r: Vec<u8>)
    ensures
        r@ == integer_of(v as int),
{
    if v < 0 {
        let w: u64 = (v as i128 + 0x1_0000_0000_0000_0000i128) as u64;
        return tlv(TAG_INTEGER, &octets(w, 8));
    }
    let mut be = minimal(v as u64);
    proof {
        minimal_nonempty(v as nat);
    }
    if be[0] >= 0x80 {
        let mut padded: Vec<u8> = vec![0u8];
        padded.append(&mut be);
        assert(padded@ =~= seq![0u8] + minimal_of(v as nat));
        tlv(TAG_INTEGER, &padded)
    } else {
        tlv(TAG_INTEGER, &be)
    }
}

pub open spec fn general_string_of(s: Seq<char>) -> Seq<u8> {
    tlv_of(TAG_GENERAL_STRING, encode_utf8(s))
}

pub fn general_string(s: &str) -> (r: Vec<u8>)
    ensures
        r@ == general_string_of(s@),
{
    let b = s.as_bytes_vec();
    tlv(TAG_GENERAL_STRING, &b)
}

// ------------------------------------------------------------------------ time

pub open spec fn leap(y: int) -> bool {
    y % 4 == 0 && (y % 100 != 0 || y % 400 == 0)
}

pub open spec fn days_in_month(y: int, m: int) -> int {
    if m == 2 {
        if leap(y) {
            29
        } else {
            28
        }
    } else if m == 4 || m == 6 || m == 9 || m == 11 {
        30
    } else {
        31
    }
}

/// Days of the year `y` before its month `m`.
pub open spec fn days_before_month(y: int, m: int) -> int
    decreases m,
{
    if m <= 1 {
        0
    } else {
        days_before_month(y, m - 1) + days_in_month(y, m - 1)
    }
}

/// Days from 1970-01-01 to January 1 of `y`: `law_years_follow_each_other` is
/// what makes this the Gregorian calendar.
pub open spec fn days_before_year(y: int) -> int {
    365 * (y - 1970) + (y - 1) / 4 - (y - 1) / 100 + (y - 1) / 400 - 477
}

/// The day number, counted from 1970-01-01, of a date.
pub open spec fn day_number(y: int, m: int, d: int) -> int {
    days_before_year(y) + days_before_month(y, m) + d - 1
}

/// A date that exists.
pub open spec fn is_date(y: int, m: int, d: int) -> bool {
    1 <= m <= 12 && 1 <= d <= days_in_month(y, m)
}

/// The calendar starts with 1970 and every year is followed, 365 or 366 days
/// later, by the next.
pub proof fn law_years_follow_each_other(y: int)
    ensures
        days_before_year(1970) == 0,
        days_before_year(y + 1) == days_before_year(y) + (if leap(y) {
            366int
        } else {
            365
        }),
{
    quotient_steps(y, 4);
    quotient_steps(y, 100);
    quotient_steps(y, 400);
    vstd::arithmetic::div_mod::lemma_fundamental_div_mod(y, 400);
    vstd::arithmetic::div_mod::lemma_fundamental_div_mod(y, 100);
    vstd::arithmetic::div_mod::lemma_mod_multiples_vanish(4 * (y / 400), y % 400, 100);
    vstd::arithmetic::div_mod::lemma_mod_multiples_vanish(25 * (y / 100), y % 100, 4);
    assert(y == 100 * (4 * (y / 400)) + y % 400);
    assert(y == 4 * (25 * (y / 100)) + y % 100);
    assert(y % 400 == 0 ==> y % 100 == 0);
    assert(y % 100 == 0 ==> y % 4 == 0);
}

/// A quotient grows by one exactly at the multiples of its divisor.
proof fn quotient_steps(y: int, n: int)
    requires
        n == 4 || n == 100 || n == 400,
    ensures
        y / n == (y - 1) / n + (if y % n == 0 {
            1int
        } else {
            0
        }),
{
    if n == 4 {
        assert(y / 4 == (y - 1) / 4 + (if y % 4 == 0 { 1int } else { 0 }));
    } else if n == 100 {
        assert(y / 100 == (y - 1) / 100 + (if y % 100 == 0 { 1int } else { 0 }));
    } else {
        assert(y / 400 == (y - 1) / 400 + (if y % 400 == 0 { 1int } else { 0 }));
    }
}

/// Where the year of the March-based calendar that a day of its 400-year era
/// falls in starts, and that the formula for that year finds it.
proof fn year_of_era(doe: int, yoe: int)
    requires
        0 <= doe < 146_097,
        yoe == (doe - doe / 1_460 + doe / 36_524 - doe / 146_096) / 365,
    ensures
        0 <= yoe < 400,
        0 <= doe - (365 * yoe + yoe / 4 - yoe / 100) <= 365,
        doe - (365 * yoe + yoe / 4 - yoe / 100) == 365 ==> leap(yoe + 1),
{
    let c = doe / 36_524;
    let q = doe / 1_460;
    let e = doe / 146_096;
    assert(c == 0 || c == 1 || c == 2 || c == 3 || c == 4);
    assert(e == 0 || e == 1);
    let n = doe - q + c - e;
    assert(365 * yoe <= n < 365 * yoe + 365);
    let a = yoe / 4;
    let b = yoe / 100;
    assert(0 <= yoe < 400);
    assert(b == 0 || b == 1 || b == 2 || b == 3);
    assert(4 * a <= yoe < 4 * a + 4);
    assert(365 * yoe + a - b <= doe);
    assert(doe <= 365 * yoe + a - b + 365);
}

proof fn months(y: int)
    ensures
        days_before_month(y, 1) == 0,
        days_before_month(y, 2) == 31,
        ({
            let l: int = if leap(y) {
                1
            } else {
                0
            };
            &&& days_before_month(y, 3) == 59 + l
            &&& days_before_month(y, 4) == 90 + l
            &&& days_before_month(y, 5) == 120 + l
            &&& days_before_month(y, 6) == 151 + l
            &&& days_before_month(y, 7) == 181 + l
            &&& days_before_month(y, 8) == 212 + l
            &&& days_before_month(y, 9) == 243 + l
            &&& days_before_month(y, 10) == 273 + l
            &&& days_before_month(y, 11) == 304 + l
            &&& days_before_month(y, 12) == 334 + l
        }),
{
    reveal_with_fuel(days_before_month, 13);
}

/// Days of the March-based year before its month `mp`.
spec fn march_days(mp: int) -> int {
    (153 * mp + 2) / 5
}

proof fn month_of_doy(doy: int, mp: int)
    requires
        0 <= doy <= 365,
        mp == (5 * doy + 2) / 153,
    ensures
        0 <= mp <= 11,
        march_days(mp) <= doy,
        mp < 11 ==> doy < march_days(mp + 1),
{
}

/// The date that a day of the March-based year is, in the ordinary one.
proof fn date_in_year(y: int, doy: int, mp: int)
    requires
        0 <= doy <= 365,
        doy == 365 ==> leap(y + 1),
        mp == (5 * doy + 2) / 153,
    ensures
        ({
            let d = doy - march_days(mp) + 1;
            let m = if mp < 10 {
                mp + 3
            } else {
                mp - 9
            };
            let year = if m <= 2 {
                y + 1
            } else {
                y
            };
            is_date(year, m, d) && day_number(year, m, d) == days_before_year(y)
                + days_before_month(y, 3) + doy
        }),
{
    month_of_doy(doy, mp);
    months(y);
    months(y + 1);
    law_years_follow_each_other(y);
    if mp == 0 {
    } else if mp == 1 {
    } else if mp == 2 {
    } else if mp == 3 {
    } else if mp == 4 {
    } else if mp == 5 {
    } else if mp == 6 {
    } else if mp == 7 {
    } else if mp == 8 {
    } else if mp == 9 {
    } else if mp == 10 {
    } else {
        assert(mp == 11);
    }
}

/// An era moves every cycle of the calendar by whole turns.
proof fn era_turns(era: int, yoe: int)
    requires
        0 <= yoe < 400,
    ensures
        ({
            let y = yoe + era * 400;
            &&& y / 4 == yoe / 4 + 100 * era
            &&& y / 100 == yoe / 100 + 4 * era
            &&& y / 400 == era
        }),
{
    vstd::arithmetic::div_mod::lemma_hoist_over_denominator(yoe, 100 * era, 4);
    vstd::arithmetic::div_mod::lemma_hoist_over_denominator(yoe, 4 * era, 100);
    vstd::arithmetic::div_mod::lemma_hoist_over_denominator(yoe, era, 400);
    assert(yoe + era * 400 == yoe + (100 * era) * 4);
    assert(yoe + era * 400 == yoe + (4 * era) * 100);
}

proof fn era_leaps(era: int, yoe: int)
    requires
        0 <= yoe < 400,
    ensures
        leap(yoe + era * 400 + 1) == leap(yoe + 1),
{
    let y = yoe + era * 400;
    vstd::arithmetic::div_mod::lemma_mod_multiples_vanish(100 * era, yoe + 1, 4);
    vstd::arithmetic::div_mod::lemma_mod_multiples_vanish(4 * era, yoe + 1, 100);
    vstd::arithmetic::div_mod::lemma_mod_multiples_vanish(era, yoe + 1, 400);
    assert(y + 1 == 4 * (100 * era) + (yoe + 1));
    assert(y + 1 == 100 * (4 * era) + (yoe + 1));
    assert(y + 1 == 400 * era + (yoe + 1));
}

/// The day of an era is the day of the year it falls in.
proof fn era_day(era: int, yoe: int)
    requires
        0 <= yoe < 400,
    ensures
        ({
            let y = yoe + era * 400;
            days_before_year(y) + days_before_month(y, 3) == era * 146_097 + 365 * yoe + yoe / 4
                - yoe / 100 - 719_468
        }),
        leap(yoe + era * 400 + 1) == leap(yoe + 1),
{
    let y = yoe + era * 400;
    era_leaps(era, yoe);
    assert(days_before_year(y) + days_before_month(y, 3) == days_before_year(y + 1) - 306) by {
        months(y);
        law_years_follow_each_other(y);
    }
    assert(days_before_year(y + 1) == 365 * (y + 1 - 1970) + y / 4 - y / 100 + y / 400 - 477);
    era_turns(era, yoe);
}

/// The date of a day counted since 1970-01-01, in the proleptic Gregorian
/// calendar -- a calendar without a calendar library.
pub fn civil_from_days(z: i64) -> (r: (i64, i64, i64))
    requires
        z + 719_468 <= i64::MAX,
    ensures
        is_date(r.0 as int, r.1 as int, r.2 as int),
        day_number(r.0 as int, r.1 as int, r.2 as int) == z,
{
    let zz: i64 = z + 719_468;
    let era: i64 = if zz >= 0 {
        zz / 146_097
    } else {
        -((146_096 - zz) / 146_097)
    };
    let doe: i64 = zz - era * 146_097;
    assert(0 <= doe < 146_097);
    let yoe: i64 = (doe - doe / 1_460 + doe / 36_524 - doe / 146_096) / 365;
    proof {
        year_of_era(doe as int, yoe as int);
        era_day(era as int, yoe as int);
    }
    let y: i64 = yoe + era * 400;
    let doy: i64 = doe - (365 * yoe + yoe / 4 - yoe / 100);
    let mp: i64 = (5 * doy + 2) / 153;
    proof {
        month_of_doy(doy as int, mp as int);
        date_in_year(y as int, doy as int, mp as int);
    }
    let d: i64 = doy - (153 * mp + 2) / 5 + 1;
    let m: i64 = if mp < 10 {
        mp + 3
    } else {
        mp - 9
    };
    let year: i64 = if m <= 2 {
        y + 1
    } else {
        y
    };
    (year, m, d)
}

/// The date that a day number names is the only one that does.
pub proof fn law_a_day_has_one_date(y1: int, m1: int, d1: int, y2: int, m2: int, d2: int)
    requires
        is_date(y1, m1, d1),
        is_date(y2, m2, d2),
        day_number(y1, m1, d1) == day_number(y2, m2, d2),
    ensures
        y1 == y2,
        m1 == m2,
        d1 == d2,
{
    months(y1);
    months(y2);
    if y1 < y2 {
        years_grow(y1 + 1, y2);
        law_years_follow_each_other(y1);
    } else if y2 < y1 {
        years_grow(y2 + 1, y1);
        law_years_follow_each_other(y2);
    }
    assert(m1 == 1 || m1 == 2 || m1 == 3 || m1 == 4 || m1 == 5 || m1 == 6 || m1 == 7 || m1 == 8 || m1
        == 9 || m1 == 10 || m1 == 11 || m1 == 12);
    assert(m2 == 1 || m2 == 2 || m2 == 3 || m2 == 4 || m2 == 5 || m2 == 6 || m2 == 7 || m2 == 8 || m2
        == 9 || m2 == 10 || m2 == 11 || m2 == 12);
}

proof fn years_grow(a: int, b: int)
    requires
        a <= b,
    ensures
        days_before_year(a) <= days_before_year(b),
    decreases b - a,
{
    if a < b {
        years_grow(a, b - 1);
        law_years_follow_each_other(b - 1);
    }
}

/// `n` in `width` decimal digits.
pub open spec fn digits_of(n: nat, width: nat) -> Seq<u8>
    decreases width,
{
    if width == 0 {
        Seq::empty()
    } else {
        digits_of(n / 10, (width - 1) as nat).push((0x30 + n % 10) as u8)
    }
}

fn put_digits(out: &mut Vec<u8>, n: u64, width: usize)
    ensures
        final(out)@ == old(out)@ + digits_of(n as nat, width as nat),
    decreases width,
{
    if width == 0 {
        assert(out@ + digits_of(n as nat, 0) =~= out@);
    } else {
        put_digits(out, n / 10, width - 1);
        out.push(0x30 + (n % 10) as u8);
        assert(out@ =~= old(out)@ + digits_of(n as nat, width as nat));
    }
}

/// `YYYYMMDDhhmmssZ`.
pub open spec fn time_text_of(y: nat, m: nat, d: nat, s: nat) -> Seq<u8> {
    digits_of(y, 4) + digits_of(m, 2) + digits_of(d, 2) + digits_of(s / 3600, 2) + digits_of(
        (s / 60) % 60,
        2,
    ) + digits_of(s % 60, 2) + seq![0x5au8]
}

/// The date of a day number, as the calendar has it.
pub open spec fn date_of(day: int) -> (int, int, int) {
    choose|y: int, m: int, d: int|
        is_date(y, m, d) && #[trigger] day_number(y, m, d) == day
}

/// `KerberosTime ::= GeneralizedTime` -- UTC, whole seconds, no fraction (RFC 4120
/// 5.2.3 forbids one).
pub open spec fn kerberos_time_of(unix: u32) -> Seq<u8> {
    let date = date_of(unix as int / 86_400);
    tlv_of(
        TAG_GENERALIZED_TIME,
        time_text_of(date.0 as nat, date.1 as nat, date.2 as nat, unix as nat % 86_400),
    )
}

pub fn kerberos_time(unix: u32) -> (r: Vec<u8>)
    ensures
        r@ == kerberos_time_of(unix),
{
    let (y, m, d) = civil_from_days((unix / 86_400) as i64);
    let s: u32 = unix % 86_400;
    proof {
        let day = unix as int / 86_400;
        let chosen = date_of(day);
        assert(is_date(y as int, m as int, d as int) && day_number(y as int, m as int, d as int)
            == day);
        law_a_day_has_one_date(y as int, m as int, d as int, chosen.0, chosen.1, chosen.2);
        months(y as int);
        if y < 1970 {
            years_grow(y + 1, 1970);
            law_years_follow_each_other(y as int);
            assert(days_before_month(y as int, m as int) + d <= 366);
        }
        assert(y >= 1970);
    }
    let mut text: Vec<u8> = Vec::new();
    put_digits(&mut text, y as u64, 4);
    put_digits(&mut text, m as u64, 2);
    put_digits(&mut text, d as u64, 2);
    put_digits(&mut text, (s / 3600) as u64, 2);
    put_digits(&mut text, ((s / 60) % 60) as u64, 2);
    put_digits(&mut text, (s % 60) as u64, 2);
    text.push(0x5a);
    assert(text@ =~= time_text_of(y as nat, m as nat, d as nat, s as nat));
    tlv(TAG_GENERALIZED_TIME, &text)
}

// ------------------------------------------------------------------------ laws

/// What the length octets of DER stand for: the number, and how many octets spell it.
pub open spec fn read_length(s: Seq<u8>) -> (nat, int) {
    if s[0] < 0x80 {
        (s[0] as nat, 1)
    } else {
        (number_of(s.subrange(1, 1 + s[0] - 0x80)), 1 + s[0] - 0x80)
    }
}

/// The fewest octets of a number read back as that number, with nothing to spare.
pub proof fn law_minimal_octets_read_back(n: nat)
    ensures
        number_of(minimal_of(n)) == n,
        n > 0 ==> minimal_of(n)[0] != 0,
    decreases n,
{
    if n < 256 {
        assert(minimal_of(n).drop_last() =~= Seq::empty());
        assert(number_of(Seq::<u8>::empty()) == 0);
    } else {
        law_minimal_octets_read_back(n / 256);
        minimal_nonempty(n / 256);
        assert(minimal_of(n).drop_last() =~= minimal_of(n / 256));
    }
}

/// A DER reader gets back the length it was written with, and finds the content
/// right behind it.
pub proof fn law_length_reads_back(n: nat, content: Seq<u8>)
    requires
        n <= u64::MAX,
    ensures
        read_length(length_of(n) + content) == (n, length_of(n).len() as int),
{
    if n >= 0x80 {
        reveal_with_fuel(pow256, 9);
        minimal_len(n, 8);
        law_minimal_octets_read_back(n);
        let s = length_of(n) + content;
        assert(s.subrange(1, 1 + s[0] - 0x80) =~= minimal_of(n));
    }
}

/// An `INTEGER` that is not negative reads back as itself and never as a
/// negative number, whose first octet would have its high bit set.
pub proof fn law_integers_are_never_negative_by_accident(v: nat)
    ensures
        number_of(integer_content_of(v as int)) == v,
        integer_content_of(v as int)[0] < 0x80,
{
    law_minimal_octets_read_back(v);
    minimal_nonempty(v);
    if minimal_of(v)[0] >= 0x80 {
        lead_zero(minimal_of(v));
    }
}

proof fn lead_zero(s: Seq<u8>)
    ensures
        number_of(seq![0u8] + s) == number_of(s),
    decreases s.len(),
{
    let t = seq![0u8] + s;
    if s.len() == 0 {
        assert(t.drop_last() =~= Seq::empty());
        assert(number_of(Seq::<u8>::empty()) == 0);
    } else {
        assert(t.drop_last() =~= seq![0u8] + s.drop_last());
        lead_zero(s.drop_last());
    }
}

// ----------------------------------------------------------------------- reading

/// The number that some big-endian octets spell, from the first of them on.
pub open spec fn spelled(s: Seq<u8>) -> nat
    decreases s.len(),
{
    if s.len() == 0 {
        0
    } else {
        s[0] as nat * pow256((s.len() - 1) as nat) + spelled(s.skip(1))
    }
}

/// One element at the start of some bytes: its tag, its content and what follows it.
pub open spec fn element(b: Seq<u8>) -> Option<(u8, Seq<u8>, Seq<u8>)> {
    if b.len() < 2 {
        None
    } else {
        let count = if b[1] < 0x80 {
            0
        } else {
            b[1] - 0x80
        };
        let at = 2 + count;
        if at > b.len() {
            None
        } else {
            let n = if b[1] < 0x80 {
                b[1] as nat
            } else {
                spelled(b.subrange(2, at))
            };
            if at + n > b.len() {
                None
            } else {
                Some((b[0], b.subrange(at, at + n), b.skip(at + n)))
            }
        }
    }
}

/// The content of an element with this tag at the start of some bytes, and what follows.
pub open spec fn tagged(b: Seq<u8>, tag: u8) -> Option<(Seq<u8>, Seq<u8>)> {
    match element(b) {
        Some((t, content, rest)) if t == tag => Some((content, rest)),
        _ => None,
    }
}

/// The content of some bytes that are one element with this tag and nothing else.
pub open spec fn only(b: Seq<u8>, tag: u8) -> Option<Seq<u8>> {
    match tagged(b, tag) {
        Some((content, rest)) if rest.len() == 0 => Some(content),
        _ => None,
    }
}

proof fn spelled_grows(s: Seq<u8>, x: u8)
    ensures
        spelled(s.push(x)) == spelled(s) * 256 + x as nat,
    decreases s.len(),
{
    let t = s.push(x);
    if s.len() == 0 {
        assert(t.skip(1) =~= Seq::empty());
        assert(spelled(Seq::<u8>::empty()) == 0);
        assert(t[0] == x);
        assert(pow256(0) == 1);
        assert(spelled(t) == x as nat * 1 + 0);
    } else {
        spelled_grows(s.skip(1), x);
        assert(t.skip(1) =~= s.skip(1).push(x));
        let p = pow256((s.len() - 1) as nat);
        assert(pow256(s.len()) == 256 * p);
        let a = s[0] as nat;
        let b = spelled(s.skip(1));
        assert(t[0] == s[0]);
        assert(a * (256 * p) + (b * 256 + x as nat) == (a * p + b) * 256 + x as nat)
            by (nonlinear_arith);
    }
}

/// Big-endian octets spell one number, read from either end.
proof fn spelled_is_the_number(s: Seq<u8>)
    ensures
        spelled(s) == number_of(s),
    decreases s.len(),
{
    if s.len() > 0 {
        spelled_is_the_number(s.drop_last());
        spelled_grows(s.drop_last(), s.last());
        assert(s.drop_last().push(s.last()) =~= s);
    }
}

/// What is written as an element is read as that element, whatever follows it: the tag, the
/// content byte for byte, and nothing of what follows.
pub proof fn law_an_element_reads_back(tag: u8, content: Seq<u8>, rest: Seq<u8>)
    requires
        content.len() <= u64::MAX,
    ensures
        element(tlv_of(tag, content) + rest) == Some((tag, content, rest)),
        tlv_of(tag, content).len() >= content.len() + 2,
{
    let b = tlv_of(tag, content) + rest;
    let n = content.len();
    assert(b[0] == tag);
    if n < 0x80 {
        assert(b[1] == n as u8);
        assert(b.subrange(2, 2 + n as int) =~= content);
        assert(b.skip(2 + n as int) =~= rest);
    } else {
        reveal_with_fuel(pow256, 9);
        minimal_len(n, 8);
        law_minimal_octets_read_back(n);
        let be = minimal_of(n);
        let at = 2 + be.len() as int;
        assert(b[1] == (0x80 + be.len()) as u8);
        assert(b.subrange(2, at) =~= be);
        spelled_is_the_number(be);
        assert(b.subrange(at, at + n as int) =~= content);
        assert(b.skip(at + n as int) =~= rest);
    }
}

/// A number as a reader takes it: two's complement, so that the high bit of the first octet
/// is the sign.
pub open spec fn signed(s: Seq<u8>) -> int {
    if s.len() > 0 && s[0] >= 0x80 {
        spelled(s) - pow256(s.len())
    } else {
        spelled(s) as int
    }
}

proof fn octets_spell(n: nat, width: nat)
    requires
        n < pow256(width),
    ensures
        octets_of(n, width).len() == width,
        spelled(octets_of(n, width)) == n,
    decreases width,
{
    if width > 0 {
        assert(pow256(width) == 256 * pow256((width - 1) as nat));
        octets_spell(n / 256, (width - 1) as nat);
        spelled_grows(octets_of(n / 256, (width - 1) as nat), (n % 256) as u8);
    }
}

/// Fixed-width octets are as many as were asked for and spell the number.
pub proof fn law_octets_read_back(n: nat, width: nat)
    requires
        n < pow256(width),
    ensures
        octets_of(n, width).len() == width,
        spelled(octets_of(n, width)) == n,
{
    octets_spell(n, width);
}

/// Every integer is read back as itself, the negative ones too.
pub proof fn law_integers_read_back(v: int)
    requires
        i64::MIN <= v <= i64::MAX,
    ensures
        signed(integer_content_of(v)) == v,
        1 <= integer_content_of(v).len() <= 9,
{
    reveal_with_fuel(pow256, 9);
    if v < 0 {
        let n = (v + 0x1_0000_0000_0000_0000) as nat;
        octets_spell(n, 8);
        first_octet(n);
    } else {
        law_integers_are_never_negative_by_accident(v as nat);
        spelled_is_the_number(integer_content_of(v));
        minimal_len(v as nat, 8);
    }
}

/// The first of eight octets says whether the upper half is meant.
proof fn first_octet(n: nat)
    requires
        0x8000_0000_0000_0000 <= n < 0x1_0000_0000_0000_0000,
    ensures
        octets_of(n, 8)[0] >= 0x80,
{
    reveal_with_fuel(octets_of, 9);
    assert(octets_of(n, 8)[0] == octets_of(n / 256, 7)[0]);
    assert(octets_of(n / 256, 7)[0] == octets_of(n / 256 / 256, 6)[0]);
    let m = n / 256 / 256;
    assert(octets_of(m, 6)[0] == octets_of(m / 256, 5)[0]);
    assert(octets_of(m / 256, 5)[0] == octets_of(m / 256 / 256, 4)[0]);
    let k = m / 256 / 256;
    assert(octets_of(k, 4)[0] == octets_of(k / 256, 3)[0]);
    assert(octets_of(k / 256, 3)[0] == octets_of(k / 256 / 256, 2)[0]);
    let j = k / 256 / 256;
    assert(octets_of(j, 2)[0] == octets_of(j / 256, 1)[0]);
    assert(octets_of(j / 256, 1)[0] == (j / 256 % 256) as u8);
    assert(0x80 <= j / 256 < 0x100);
}

/// The number that some decimal digits spell.
pub open spec fn decimal_in(s: Seq<u8>) -> int
    decreases s.len(),
{
    if s.len() == 0 {
        0
    } else {
        decimal_in(s.drop_last()) * 10 + (s.last() - 0x30)
    }
}

/// Whether a text is a time as Kerberos writes one: fourteen digits and a `Z`.
pub open spec fn is_time_text(t: Seq<u8>) -> bool {
    t.len() == 15 && t[14] == 0x5a && forall|i: int| 0 <= i < 14 ==> 0x30 <= #[trigger] t[i] <= 0x39
}

/// The Unix seconds of such a text: its day, as the calendar numbers it, and the hour,
/// minute and second of it.
pub open spec fn seconds_in(t: Seq<u8>) -> int {
    day_number(
        decimal_in(t.subrange(0, 4)),
        decimal_in(t.subrange(4, 6)),
        decimal_in(t.subrange(6, 8)),
    ) * 86_400 + decimal_in(t.subrange(8, 10)) * 3_600 + decimal_in(t.subrange(10, 12)) * 60
        + decimal_in(t.subrange(12, 14))
}

/// A date and a time of day, as a text has them.
pub open spec fn is_moment_text(t: Seq<u8>) -> bool {
    &&& is_time_text(t)
    &&& is_date(
        decimal_in(t.subrange(0, 4)),
        decimal_in(t.subrange(4, 6)),
        decimal_in(t.subrange(6, 8)),
    )
    &&& decimal_in(t.subrange(8, 10)) < 24
    &&& decimal_in(t.subrange(10, 12)) < 60
    &&& decimal_in(t.subrange(12, 14)) < 60
}

/// 10 to the `k`.
pub open spec fn pow10(k: nat) -> nat
    decreases k,
{
    if k == 0 {
        1
    } else {
        10 * pow10((k - 1) as nat)
    }
}

proof fn digits_spell(n: nat, width: nat)
    requires
        n < pow10(width),
    ensures
        digits_of(n, width).len() == width,
        decimal_in(digits_of(n, width)) == n,
        forall|i: int| 0 <= i < width ==> 0x30 <= #[trigger] digits_of(n, width)[i] <= 0x39,
    decreases width,
{
    if width > 0 {
        assert(pow10(width) == 10 * pow10((width - 1) as nat));
        digits_spell(n / 10, (width - 1) as nat);
        let d = digits_of(n, width);
        assert(d.drop_last() =~= digits_of(n / 10, (width - 1) as nat));
    }
}

proof fn time_text_reads_back(y: nat, m: nat, d: nat, s: nat)
    requires
        y < 10_000,
        m < 100,
        d < 100,
        s < 86_400,
    ensures
        ({
            let t = time_text_of(y, m, d, s);
            &&& is_time_text(t)
            &&& decimal_in(t.subrange(0, 4)) == y
            &&& decimal_in(t.subrange(4, 6)) == m
            &&& decimal_in(t.subrange(6, 8)) == d
            &&& decimal_in(t.subrange(8, 10)) == s / 3600
            &&& decimal_in(t.subrange(10, 12)) == (s / 60) % 60
            &&& decimal_in(t.subrange(12, 14)) == s % 60
        }),
{
    let t = time_text_of(y, m, d, s);
    reveal_with_fuel(pow10, 5);
    digits_spell(y, 4);
    digits_spell(m, 2);
    digits_spell(d, 2);
    digits_spell(s / 3600, 2);
    digits_spell((s / 60) % 60, 2);
    digits_spell(s % 60, 2);
    assert(t.subrange(0, 4) =~= digits_of(y, 4));
    assert(t.subrange(4, 6) =~= digits_of(m, 2));
    assert(t.subrange(6, 8) =~= digits_of(d, 2));
    assert(t.subrange(8, 10) =~= digits_of(s / 3600, 2));
    assert(t.subrange(10, 12) =~= digits_of((s / 60) % 60, 2));
    assert(t.subrange(12, 14) =~= digits_of(s % 60, 2));
    assert forall|i: int| 0 <= i < 14 implies 0x30 <= #[trigger] t[i] <= 0x39 by {
        if i < 4 {
            assert(t[i] == digits_of(y, 4)[i]);
        } else if i < 6 {
            assert(t[i] == digits_of(m, 2)[i - 4]);
        } else if i < 8 {
            assert(t[i] == digits_of(d, 2)[i - 6]);
        } else if i < 10 {
            assert(t[i] == digits_of(s / 3600, 2)[i - 8]);
        } else if i < 12 {
            assert(t[i] == digits_of((s / 60) % 60, 2)[i - 10]);
        } else {
            assert(t[i] == digits_of(s % 60, 2)[i - 12]);
        }
    }
}

/// Every day of the era that 32 bits of seconds span has a date of four digits.
proof fn a_date_of_now(day: int) -> (r: (int, int, int))
    requires
        0 <= day <= 49_710,
    ensures
        r == date_of(day),
        is_date(r.0, r.1, r.2),
        day_number(r.0, r.1, r.2) == day,
        1970 <= r.0 < 10_000,
{
    let found = a_date(day);
    let r = date_of(day);
    assert(is_date(found.0, found.1, found.2) && day_number(found.0, found.1, found.2) == day);
    months(r.0);
    law_years_follow_each_other(r.0);
    if r.0 < 1970 {
        years_grow(r.0 + 1, 1970);
        assert(days_before_month(r.0, r.1) + r.2 <= 366);
    }
    if r.0 >= 10_000 {
        years_grow(10_000, r.0);
        assert(days_before_month(r.0, r.1) >= 0);
    }
    r
}

/// Every day has a date.
proof fn a_date(z: int) -> (r: (int, int, int))
    ensures
        is_date(r.0, r.1, r.2),
        day_number(r.0, r.1, r.2) == z,
{
    let zz = z + 719_468;
    let era = zz / 146_097;
    let doe = zz - era * 146_097;
    assert(0 <= doe < 146_097);
    let yoe = (doe - doe / 1_460 + doe / 36_524 - doe / 146_096) / 365;
    year_of_era(doe, yoe);
    era_day(era, yoe);
    let y = yoe + era * 400;
    let doy = doe - (365 * yoe + yoe / 4 - yoe / 100);
    let mp = (5 * doy + 2) / 153;
    month_of_doy(doy, mp);
    date_in_year(y, doy, mp);
    let d = doy - march_days(mp) + 1;
    let m = if mp < 10 {
        mp + 3
    } else {
        mp - 9
    };
    let year = if m <= 2 {
        y + 1
    } else {
        y
    };
    (year, m, d)
}

/// The time of a Kerberos element.
pub open spec fn time_in(content: Seq<u8>) -> Option<int> {
    match only(content, 0x18) {
        Some(t) => if is_moment_text(t) {
            Some(seconds_in(t))
        } else {
            None
        },
        None => None,
    }
}

/// A time is written as the date and the time of day that it is: read back, it is the same
/// second.
pub proof fn law_a_time_reads_back(unix: u32)
    ensures
        time_in(kerberos_time_of(unix)) == Some(unix as int),
        kerberos_time_of(unix).len() == 17,
{
    let date = a_date_of_now(unix as int / 86_400);
    let s = unix as nat % 86_400;
    let t = time_text_of(date.0 as nat, date.1 as nat, date.2 as nat, s);
    assert(date.1 < 100 && date.2 < 100);
    time_text_reads_back(date.0 as nat, date.1 as nat, date.2 as nat, s);
    law_an_element_reads_back(0x18, t, Seq::empty());
    assert(kerberos_time_of(unix) + Seq::<u8>::empty() =~= kerberos_time_of(unix));
    assert(s / 3600 * 3600 + (s / 60) % 60 * 60 + s % 60 == s);
}

/// The calendar is the Gregorian one: a year is a leap year every four years, but not every
/// hundred, but every four hundred; its months are as long as they are; and 1970 starts at
/// nought.
pub proof fn law_the_calendar_is_the_gregorian_one(y: int)
    ensures
        ({
            let l: int = if y % 4 == 0 && (y % 100 != 0 || y % 400 == 0) {
                1
            } else {
                0
            };
            &&& day_number(1970, 1, 1) == 0
            &&& day_number(y + 1, 1, 1) == day_number(y, 1, 1) + 365 + l
            &&& day_number(y, 2, 1) == day_number(y, 1, 1) + 31
            &&& day_number(y, 3, 1) == day_number(y, 2, 1) + 28 + l
            &&& day_number(y, 4, 1) == day_number(y, 3, 1) + 31
            &&& day_number(y, 5, 1) == day_number(y, 4, 1) + 30
            &&& day_number(y, 6, 1) == day_number(y, 5, 1) + 31
            &&& day_number(y, 7, 1) == day_number(y, 6, 1) + 30
            &&& day_number(y, 8, 1) == day_number(y, 7, 1) + 31
            &&& day_number(y, 9, 1) == day_number(y, 8, 1) + 31
            &&& day_number(y, 10, 1) == day_number(y, 9, 1) + 30
            &&& day_number(y, 11, 1) == day_number(y, 10, 1) + 31
            &&& day_number(y, 12, 1) == day_number(y, 11, 1) + 30
            &&& day_number(y + 1, 1, 1) == day_number(y, 12, 1) + 31
            &&& forall|m: int, d: int| #[trigger] day_number(y, m, d) == day_number(y, m, 1) + d - 1
            &&& forall|d: int| is_date(y, 2, d) <==> 1 <= d <= 28 + l
            &&& forall|m: int, d: int| #[trigger] is_date(y, m, d) ==> 1 <= m <= 12 && 1 <= d <= 31
        }),
{
    months(y);
    months(1970);
    months(y + 1);
    law_years_follow_each_other(y);
    law_years_follow_each_other(1970);
}

} // verus!
