//! Text as sequences of characters: the handful of string operations the rest
//! of the crate is written in, each against a statement over `Seq<char>`.

use vstd::prelude::*;
use vstd::string::*;

verus! {

/// `String::push`: appends the one character to the end of the string.
pub assume_specification[ String::push ](s: &mut String, c: char)
    ensures
        final(s)@ == old(s)@.push(c),
;

/// The characters with the Unicode `White_Space` property.
pub open spec fn white(c: char) -> bool {
    ||| '\u{9}' <= c <= '\u{d}'
    ||| c == ' '
    ||| c == '\u{85}'
    ||| c == '\u{a0}'
    ||| c == '\u{1680}'
    ||| '\u{2000}' <= c <= '\u{200a}'
    ||| c == '\u{2028}'
    ||| c == '\u{2029}'
    ||| c == '\u{202f}'
    ||| c == '\u{205f}'
    ||| c == '\u{3000}'
}

pub fn is_white(c: char) -> (b: bool)
    ensures
        b == white(c),
{
    ('\u{9}' <= c && c <= '\u{d}') || c == ' ' || c == '\u{85}' || c == '\u{a0}' || c == '\u{1680}'
        || ('\u{2000}' <= c && c <= '\u{200a}') || c == '\u{2028}' || c == '\u{2029}' || c
        == '\u{202f}' || c == '\u{205f}' || c == '\u{3000}'
}

/// The strings behind a vector of them.
pub open spec fn texts(v: Seq<String>) -> Seq<Seq<char>> {
    Seq::new(v.len(), |i: int| v[i]@)
}

/// The text behind an optional string.
pub open spec fn opt_text(o: Option<String>) -> Option<Seq<char>> {
    match o {
        Some(s) => Some(s@),
        None => None,
    }
}

/// The characters of `s`, in order.
pub fn chars_of(s: &str) -> (v: Vec<char>)
    ensures
        v@ == s@,
{
    let mut v: Vec<char> = Vec::new();
    for c in it: s.chars()
        invariant
            it.seq() == s@,
            v@ == it.seq().take(it.index()),
    {
        v.push(c);
    }
    v
}

/// `v` from `from` up to `to`, as a string.
pub fn string_of(v: &Vec<char>, from: usize, to: usize) -> (s: String)
    requires
        from <= to <= v@.len(),
    ensures
        s@ == v@.subrange(from as int, to as int),
{
    let mut s = String::new();
    let mut i: usize = from;
    while i < to
        invariant
            from <= i <= to <= v@.len(),
            s@ == v@.subrange(from as int, i as int),
        decreases to - i,
    {
        s.push(v[i]);
        i = i + 1;
    }
    s
}

/// Two texts with the same characters.
pub fn same(a: &str, b: &str) -> (r: bool)
    ensures
        r == (a@ == b@),
{
    a.to_owned() == b.to_owned()
}

/// `a` followed by `b`.
pub fn joined(a: &str, b: &str) -> (r: String)
    ensures
        r@ == a@ + b@,
{
    let mut s = a.to_owned();
    s.append(b);
    s
}

/// A copy of an optional string.
pub fn copied(o: &Option<String>) -> (r: Option<String>)
    ensures
        opt_text(r) == opt_text(*o),
{
    match o {
        Some(s) => Some(s.clone()),
        None => None,
    }
}

/// A copy of a list of strings.
pub fn copied_all(v: &Vec<String>) -> (r: Vec<String>)
    ensures
        texts(r@) == texts(v@),
{
    let mut out: Vec<String> = Vec::new();
    let mut i: usize = 0;
    while i < v.len()
        invariant
            i <= v@.len(),
            out@.len() == i,
            forall|k: int| 0 <= k < i ==> (#[trigger] out@[k])@ == v@[k]@,
        decreases v@.len() - i,
    {
        out.push(v[i].clone());
        i = i + 1;
    }
    out
}

/// Whether two lists hold the same strings in the same order.
pub fn same_all(a: &Vec<String>, b: &Vec<String>) -> (r: bool)
    ensures
        r == (texts(a@) == texts(b@)),
{
    if a.len() != b.len() {
        assert(texts(a@).len() != texts(b@).len());
        return false;
    }
    let mut i: usize = 0;
    while i < a.len()
        invariant
            i <= a@.len(),
            a@.len() == b@.len(),
            forall|k: int| 0 <= k < i ==> (#[trigger] a@[k])@ == b@[k]@,
        decreases a@.len() - i,
    {
        if !(a[i] == b[i]) {
            assert(texts(a@)[i as int] != texts(b@)[i as int]);
            return false;
        }
        i = i + 1;
    }
    assert(texts(a@) =~= texts(b@));
    true
}

/// `s` without its leading white space.
pub open spec fn trim_start(s: Seq<char>) -> Seq<char>
    decreases s.len(),
{
    if s.len() > 0 && white(s[0]) {
        trim_start(s.drop_first())
    } else {
        s
    }
}

/// `s` without its trailing white space.
pub open spec fn trim_end(s: Seq<char>) -> Seq<char>
    decreases s.len(),
{
    if s.len() > 0 && white(s.last()) {
        trim_end(s.drop_last())
    } else {
        s
    }
}

/// `s` without the white space at either end.
pub open spec fn trimmed(s: Seq<char>) -> Seq<char> {
    trim_end(trim_start(s))
}

pub fn trim(s: &str) -> (r: String)
    ensures
        r@ == trimmed(s@),
{
    let v = chars_of(s);
    let mut from: usize = 0;
    assert(v@.subrange(0, v@.len() as int) =~= v@);
    while from < v.len() && is_white(v[from])
        invariant
            from <= v@.len(),
            trim_start(v@.subrange(from as int, v@.len() as int)) == trim_start(v@),
        decreases v@.len() - from,
    {
        proof {
            let rest = v@.subrange(from as int, v@.len() as int);
            assert(rest.drop_first() =~= v@.subrange(from + 1, v@.len() as int));
        }
        from = from + 1;
    }
    let ghost started = v@.subrange(from as int, v@.len() as int);
    let mut to: usize = v.len();
    while to > from && is_white(v[to - 1])
        invariant
            from <= to <= v@.len(),
            trim_end(v@.subrange(from as int, to as int)) == trim_end(started),
        decreases to - from,
    {
        proof {
            let rest = v@.subrange(from as int, to as int);
            assert(rest.drop_last() =~= v@.subrange(from as int, to - 1));
        }
        to = to - 1;
    }
    string_of(&v, from, to)
}

pub fn trim_end_of(s: &str) -> (r: String)
    ensures
        r@ == trim_end(s@),
{
    let v = chars_of(s);
    let mut to: usize = v.len();
    assert(v@.take(to as int) =~= s@);
    while to > 0 && is_white(v[to - 1])
        invariant
            to <= v@.len(),
            trim_end(v@.take(to as int)) == trim_end(s@),
        decreases to,
    {
        assert(v@.take(to as int).drop_last() =~= v@.take(to - 1));
        to = to - 1;
    }
    let r = string_of(&v, 0, to);
    assert(r@ =~= v@.take(to as int));
    r
}

/// `s` without any `c` at its end.
pub open spec fn without_trailing(s: Seq<char>, c: char) -> Seq<char>
    decreases s.len(),
{
    if s.len() > 0 && s.last() == c {
        without_trailing(s.drop_last(), c)
    } else {
        s
    }
}

pub fn trim_end_char(s: &str, c: char) -> (r: String)
    ensures
        r@ == without_trailing(s@, c),
{
    let v = chars_of(s);
    let mut to: usize = v.len();
    assert(v@.subrange(0, v@.len() as int) =~= v@);
    while to > 0 && v[to - 1] == c
        invariant
            to <= v@.len(),
            without_trailing(v@.subrange(0, to as int), c) == without_trailing(v@, c),
        decreases to,
    {
        proof {
            assert(v@.subrange(0, to as int).drop_last() =~= v@.subrange(0, to - 1));
        }
        to = to - 1;
    }
    string_of(&v, 0, to)
}

/// `s` with `prefix` taken off its front as often as it stands there.
pub open spec fn without_leading(s: Seq<char>, prefix: Seq<char>) -> Seq<char>
    decreases s.len(),
{
    if prefix.len() > 0 && prefix.is_prefix_of(s) {
        without_leading(s.skip(prefix.len() as int), prefix)
    } else {
        s
    }
}

/// Whether `p` stands in `v` at `at`.
pub fn stands_at(v: &Vec<char>, at: usize, p: &Vec<char>) -> (r: bool)
    requires
        at <= v@.len(),
    ensures
        r == p@.is_prefix_of(v@.skip(at as int)),
{
    if v.len() - at < p.len() {
        return false;
    }
    let mut i: usize = 0;
    while i < p.len()
        invariant
            i <= p@.len(),
            at + p.len() <= v.len(),
            forall|k: int| 0 <= k < i ==> p@[k] == v@[at + k],
        decreases p@.len() - i,
    {
        if v[at + i] != p[i] {
            assert(v@.skip(at as int)[i as int] != p@[i as int]);
            assert(v@.skip(at as int).subrange(0, p@.len() as int)[i as int] != p@[i as int]);
            return false;
        }
        i = i + 1;
    }
    assert(p@ =~= v@.skip(at as int).subrange(0, p@.len() as int));
    true
}

pub fn trim_start_str(s: &str, prefix: &str) -> (r: String)
    requires
        prefix@.len() > 0,
    ensures
        r@ == without_leading(s@, prefix@),
{
    let v = chars_of(s);
    let p = chars_of(prefix);
    let mut from: usize = 0;
    assert(v@.skip(0) =~= v@);
    while stands_at(&v, from, &p)
        invariant
            from <= v@.len(),
            p@ == prefix@,
            p@.len() > 0,
            without_leading(v@.skip(from as int), p@) == without_leading(v@, p@),
        decreases v@.len() - from,
    {
        proof {
            assert(p@.len() <= v@.skip(from as int).len());
            assert(from + p.len() <= v.len());
            assert(v@.skip(from as int).skip(p@.len() as int) =~= v@.skip(from + p@.len()));
        }
        from = from + p.len();
    }
    assert(v@.skip(from as int) =~= v@.subrange(from as int, v@.len() as int));
    let n: usize = v.len();
    string_of(&v, from, n)
}

/// `s` with `suffix` taken off its end as often as it stands there.
pub open spec fn without_suffix(s: Seq<char>, suffix: Seq<char>) -> Seq<char>
    decreases s.len(),
{
    if suffix.len() > 0 && suffix.is_suffix_of(s) {
        without_suffix(s.take(s.len() - suffix.len()), suffix)
    } else {
        s
    }
}

pub fn trim_end_str(s: &str, suffix: &str) -> (r: String)
    requires
        suffix@.len() > 0,
    ensures
        r@ == without_suffix(s@, suffix@),
{
    let v = chars_of(s);
    let p = chars_of(suffix);
    let mut to: usize = v.len();
    assert(v@.take(to as int) =~= v@);
    loop
        invariant
            to <= v@.len(),
            v@ == s@,
            p@ == suffix@,
            p@.len() > 0,
            without_suffix(v@.take(to as int), p@) == without_suffix(v@, p@),
        decreases to,
    {
        let ghost now = v@.take(to as int);
        if to < p.len() {
            let r = string_of(&v, 0, to);
            assert(r@ =~= now);
            return r;
        }
        let at: usize = to - p.len();
        let mut i: usize = 0;
        while i < p.len() && v[at + i] == p[i]
            invariant
                i <= p.len(),
                at + p.len() == to,
                to <= v.len(),
                forall|k: int| 0 <= k < i ==> p@[k] == v@[at + k],
            decreases p@.len() - i,
        {
            i = i + 1;
        }
        if i < p.len() {
            proof {
                assert(now.subrange(now.len() - p@.len(), now.len() as int)[i as int] == v@[at + i]);
                assert(!p@.is_suffix_of(now));
            }
            let r = string_of(&v, 0, to);
            assert(r@ =~= now);
            return r;
        }
        proof {
            assert(p@ =~= now.subrange(now.len() - p@.len(), now.len() as int));
            assert(now.take(now.len() - p@.len()) =~= v@.take(at as int));
        }
        to = at;
    }
}

pub fn starts_with(s: &str, prefix: &str) -> (r: bool)
    ensures
        r == prefix@.is_prefix_of(s@),
{
    let v = chars_of(s);
    let p = chars_of(prefix);
    assert(v@.skip(0) =~= v@);
    stands_at(&v, 0, &p)
}

pub fn has_char(s: &str, c: char) -> (r: bool)
    ensures
        r == s@.contains(c),
{
    let v = chars_of(s);
    let mut i: usize = 0;
    while i < v.len()
        invariant
            i <= v@.len(),
            v@ == s@,
            forall|k: int| 0 <= k < i ==> v@[k] != c,
        decreases v@.len() - i,
    {
        if v[i] == c {
            return true;
        }
        i = i + 1;
    }
    false
}

/// Whether `needle` stands somewhere in `s`.
pub open spec fn holds_text(s: Seq<char>, needle: Seq<char>) -> bool {
    exists|i: int| 0 <= i <= s.len() && #[trigger] needle.is_prefix_of(s.skip(i))
}

pub fn has_text(s: &str, needle: &str) -> (r: bool)
    ensures
        r == holds_text(s@, needle@),
{
    let v = chars_of(s);
    let p = chars_of(needle);
    let mut i: usize = 0;
    loop
        invariant
            i <= v@.len(),
            v@ == s@,
            p@ == needle@,
            forall|k: int| 0 <= k < i ==> !#[trigger] needle@.is_prefix_of(s@.skip(k)),
        decreases v@.len() - i,
    {
        if stands_at(&v, i, &p) {
            return true;
        }
        if i == v.len() {
            return false;
        }
        i = i + 1;
    }
}

/// Where `c` first stands, which is past the end where it does not.
pub open spec fn first_of(s: Seq<char>, c: char) -> int
    decreases s.len(),
{
    if s.len() == 0 || s[0] == c {
        0
    } else {
        1 + first_of(s.drop_first(), c)
    }
}

/// A first place is one: `c` stands nowhere before it, and there unless it is past
/// the end.
pub proof fn first_is_first(s: Seq<char>, c: char)
    ensures
        0 <= first_of(s, c) <= s.len(),
        forall|i: int| 0 <= i < first_of(s, c) ==> s[i] != c,
        first_of(s, c) < s.len() ==> s[first_of(s, c)] == c,
    decreases s.len(),
{
    if s.len() > 0 && s[0] != c {
        let rest = s.drop_first();
        first_is_first(rest, c);
        assert forall|i: int| 0 <= i < first_of(s, c) implies s[i] != c by {
            if i > 0 {
                assert(rest[i - 1] == s[i]);
            }
        }
    }
}

/// What stands before the first `c`, and what stands after it where there is one.
pub fn cut(s: &str, c: char) -> (r: (String, Option<String>))
    ensures
        r.0@ == s@.take(first_of(s@, c)),
        opt_text(r.1) == (if first_of(s@, c) < s@.len() {
            Some(s@.skip(first_of(s@, c) + 1))
        } else {
            None
        }),
{
    let v = chars_of(s);
    let mut i: usize = 0;
    proof {
        first_is_first(s@, c);
    }
    while i < v.len() && v[i] != c
        invariant
            v@ == s@,
            i <= v@.len(),
            i <= first_of(s@, c) <= s@.len(),
            forall|k: int| 0 <= k < first_of(s@, c) ==> s@[k] != c,
            first_of(s@, c) < s@.len() ==> s@[first_of(s@, c)] == c,
        decreases v@.len() - i,
    {
        i = i + 1;
    }
    let head = string_of(&v, 0, i);
    assert(head@ =~= s@.take(first_of(s@, c)));
    if i < v.len() {
        let tail = string_of(&v, i + 1, v.len());
        assert(tail@ =~= s@.skip(first_of(s@, c) + 1));
        (head, Some(tail))
    } else {
        (head, None)
    }
}

/// The parts one after another with `sep` between them.
pub open spec fn join(parts: Seq<Seq<char>>, sep: Seq<char>) -> Seq<char>
    decreases parts.len(),
{
    if parts.len() == 0 {
        Seq::empty()
    } else if parts.len() == 1 {
        parts[0]
    } else {
        join(parts.drop_last(), sep) + sep + parts.last()
    }
}

pub fn join_all(parts: &Vec<String>, sep: &str) -> (r: String)
    ensures
        r@ == join(texts(parts@), sep@),
{
    let mut out = String::new();
    let mut i: usize = 0;
    while i < parts.len()
        invariant
            i <= parts@.len(),
            out@ == join(texts(parts@).take(i as int), sep@),
        decreases parts@.len() - i,
    {
        proof {
            let t = texts(parts@).take(i + 1);
            assert(t.drop_last() =~= texts(parts@).take(i as int));
            assert(t.last() == parts@[i as int]@);
        }
        if i > 0 {
            out.append(sep);
        }
        out.append(parts[i].as_str());
        i = i + 1;
    }
    assert(texts(parts@).take(i as int) =~= texts(parts@));
    out
}

/// The decimal digits of `n`.
pub open spec fn decimal(n: nat) -> Seq<char>
    decreases n,
{
    if n < 10 {
        seq![digit(n)]
    } else {
        decimal(n / 10).push(digit(n % 10))
    }
}

/// The character of one decimal digit.
pub open spec fn digit(n: nat) -> char {
    (0x30 + n) as char
}

pub fn digit_char(n: u64) -> (c: char)
    requires
        n < 10,
    ensures
        c == digit(n as nat),
{
    (0x30 + n as u8) as char
}

pub fn decimal_of(n: u64) -> (r: String)
    ensures
        r@ == decimal(n as nat),
    decreases n,
{
    if n < 10 {
        let mut s = String::new();
        s.push(digit_char(n));
        assert(s@ =~= seq![digit(n as nat)]);
        s
    } else {
        let mut s = decimal_of(n / 10);
        s.push(digit_char(n % 10));
        s
    }
}

/// The character of one lowercase hexadecimal digit.
pub open spec fn hex_digit(n: nat) -> char {
    if n < 10 {
        (0x30 + n) as char
    } else {
        (0x57 + n) as char
    }
}

/// `n` in four lowercase hexadecimal digits.
pub open spec fn hex4(n: u16) -> Seq<char> {
    seq![
        hex_digit(n as nat / 0x1000),
        hex_digit(n as nat / 0x100 % 16),
        hex_digit(n as nat / 16 % 16),
        hex_digit(n as nat % 16),
    ]
}

fn hex_char(n: u16) -> (c: char)
    requires
        n < 16,
    ensures
        c == hex_digit(n as nat),
{
    if n < 10 {
        (0x30 + n as u8) as char
    } else {
        (0x57 + n as u8) as char
    }
}

pub fn hex4_of(n: u16) -> (r: String)
    ensures
        r@ == hex4(n),
{
    let mut s = String::new();
    s.push(hex_char(n / 0x1000));
    s.push(hex_char(n / 0x100 % 16));
    s.push(hex_char(n / 16 % 16));
    s.push(hex_char(n % 16));
    assert(s@ =~= hex4(n));
    s
}

/// The eight hexadecimal digits of `n`.
pub open spec fn hex8(n: u32) -> Seq<char> {
    hex4((n / 0x1_0000) as u16) + hex4((n % 0x1_0000) as u16)
}

pub fn hex8_of(n: u32) -> (r: String)
    ensures
        r@ == hex8(n),
{
    let high = hex4_of((n / 0x1_0000) as u16);
    let low = hex4_of((n % 0x1_0000) as u16);
    joined(high.as_str(), low.as_str())
}

/// The text behind an optional string slice.
pub open spec fn opt_str(o: Option<&str>) -> Option<Seq<char>> {
    match o {
        Some(s) => Some(s@),
        None => None,
    }
}

/// Whether two optional texts are the same.
pub fn same_opt(a: &Option<String>, b: &Option<String>) -> (r: bool)
    ensures
        r == (opt_text(*a) == opt_text(*b)),
{
    match (a, b) {
        (Some(x), Some(y)) => *x == *y,
        (None, None) => true,
        _ => false,
    }
}

/// An optional slice as an optional string.
pub fn owned(o: Option<&str>) -> (r: Option<String>)
    ensures
        opt_text(r) == opt_str(o),
{
    match o {
        Some(s) => Some(s.to_owned()),
        None => None,
    }
}

/// An optional slice as a string, empty where there is none.
pub fn or_empty(o: Option<&str>) -> (r: String)
    ensures
        r@ == or_nothing(opt_str(o)),
{
    match o {
        Some(s) => s.to_owned(),
        None => String::new(),
    }
}

/// An optional text, empty where there is none.
pub open spec fn or_nothing(o: Option<Seq<char>>) -> Seq<char> {
    match o {
        Some(s) => s,
        None => Seq::empty(),
    }
}

// ------------------------------------------------------------------------ laws

proof fn start_is_trimmed(s: Seq<char>) -> (n: int)
    ensures
        0 <= n <= s.len(),
        trim_start(s) == s.skip(n),
        forall|i: int| 0 <= i < n ==> white(#[trigger] s[i]),
        n < s.len() ==> !white(s[n]),
    decreases s.len(),
{
    if s.len() > 0 && white(s[0]) {
        let t = s.drop_first();
        let n = start_is_trimmed(t);
        assert(t.skip(n) =~= s.skip(n + 1));
        assert forall|i: int| 0 <= i < n + 1 implies white(#[trigger] s[i]) by {
            if i > 0 {
                assert(white(t[i - 1]));
            }
        }
        n + 1
    } else {
        assert(s.skip(0) =~= s);
        0
    }
}

proof fn end_is_trimmed(s: Seq<char>) -> (n: int)
    ensures
        0 <= n <= s.len(),
        trim_end(s) == s.take(n),
        forall|i: int| n <= i < s.len() ==> white(#[trigger] s[i]),
        n > 0 ==> !white(s[n - 1]),
    decreases s.len(),
{
    if s.len() > 0 && white(s.last()) {
        let t = s.drop_last();
        let n = end_is_trimmed(t);
        assert(t.take(n) =~= s.take(n));
        assert forall|i: int| n <= i < s.len() implies white(#[trigger] s[i]) by {
            if i < t.len() {
                assert(white(t[i]));
            }
        }
        n
    } else {
        assert(s.take(s.len() as int) =~= s);
        s.len() as int
    }
}

/// White space, and nothing but white space, goes from both ends; what is left begins and
/// ends with something else.
pub proof fn law_trimming_takes_white_space_from_the_ends(s: Seq<char>) -> (r: (int, int))
    ensures
        0 <= r.0 <= r.1 <= s.len(),
        trimmed(s) == s.subrange(r.0, r.1),
        forall|i: int| 0 <= i < r.0 || r.1 <= i < s.len() ==> white(#[trigger] s[i]),
        trimmed(s).len() > 0 ==> !white(trimmed(s)[0]) && !white(trimmed(s).last()),
        trimmed(s).len() == 0 <==> forall|i: int| 0 <= i < s.len() ==> white(#[trigger] s[i]),
{
    let a = start_is_trimmed(s);
    let t = s.skip(a);
    let b = end_is_trimmed(t);
    assert(t.take(b) =~= s.subrange(a, a + b));
    assert forall|i: int| 0 <= i < a || a + b <= i < s.len() implies white(#[trigger] s[i]) by {
        if i >= a {
            assert(t[i - a] == s[i]);
        }
    }
    if b > 0 {
        assert(t[0] == s[a]);
        assert(t[b - 1] == s[a + b - 1]);
        assert(a < s.len());
        assert(!white(s[a]));
    }
    (a, a + b)
}

/// Of the first 128 characters, six are white space.
pub proof fn law_white_space_in_ascii(c: char)
    requires
        (c as u32) < 0x80,
    ensures
        white(c) <==> c == ' ' || c == '\t' || c == '\n' || c == '\u{b}' || c == '\u{c}' || c
            == '\r',
{
}

/// Every one of that character goes from the end, and no other.
pub proof fn law_nothing_else_goes_from_the_end(s: Seq<char>, c: char)
    ensures
        without_trailing(s, c).is_prefix_of(s),
        forall|i: int| without_trailing(s, c).len() <= i < s.len() ==> #[trigger] s[i] == c,
        without_trailing(s, c).len() > 0 ==> without_trailing(s, c).last() != c,
    decreases s.len(),
{
    if s.len() > 0 && s.last() == c {
        let t = s.drop_last();
        law_nothing_else_goes_from_the_end(t, c);
        assert forall|i: int| without_trailing(s, c).len() <= i < s.len() implies #[trigger] s[i]
            == c by {
            if i < t.len() {
                assert(t[i] == s[i]);
            }
        }
    }
}

/// A prefix goes as often as it stands there, and leaves the rest.
pub proof fn law_a_prefix_goes_as_often_as_it_stands(s: Seq<char>, prefix: Seq<char>)
    requires
        prefix.len() > 0,
    ensures
        without_leading(prefix + s, prefix) == without_leading(s, prefix),
        !prefix.is_prefix_of(s) ==> without_leading(s, prefix) == s,
        !prefix.is_prefix_of(without_leading(s, prefix)),
        without_leading(s, prefix).is_suffix_of(s),
    decreases s.len(),
{
    assert((prefix + s).skip(prefix.len() as int) =~= s);
    assert(prefix.is_prefix_of(prefix + s)) by {
        assert((prefix + s).take(prefix.len() as int) =~= prefix);
    }
    if prefix.is_prefix_of(s) {
        let t = s.skip(prefix.len() as int);
        law_a_prefix_goes_as_often_as_it_stands(t, prefix);
        let r = without_leading(s, prefix);
        assert(r.is_suffix_of(t));
        assert forall|i: int| 0 <= i < r.len() implies r[i] == #[trigger] s.skip(s.len() - r.len())[i] by {
            assert(t.skip(t.len() - r.len())[i] == r[i]);
        }
    }
}

/// A suffix goes as often as it stands there, and leaves the rest.
pub proof fn law_a_suffix_goes_as_often_as_it_stands(s: Seq<char>, suffix: Seq<char>)
    requires
        suffix.len() > 0,
    ensures
        without_suffix(s + suffix, suffix) == without_suffix(s, suffix),
        !suffix.is_suffix_of(s) ==> without_suffix(s, suffix) == s,
        !suffix.is_suffix_of(without_suffix(s, suffix)),
        without_suffix(s, suffix).is_prefix_of(s),
    decreases s.len(),
{
    let whole = s + suffix;
    assert(whole.take(whole.len() - suffix.len()) =~= s);
    assert(suffix.is_suffix_of(whole)) by {
        assert(whole.skip(whole.len() - suffix.len()) =~= suffix);
    }
    if suffix.is_suffix_of(s) {
        let t = s.take(s.len() - suffix.len());
        law_a_suffix_goes_as_often_as_it_stands(t, suffix);
        let r = without_suffix(s, suffix);
        assert forall|i: int| 0 <= i < r.len() implies r[i] == #[trigger] s[i] by {
            assert(t[i] == s[i]);
        }
    }
}

/// One text is held by another exactly where it stands somewhere in it.
pub proof fn law_a_text_is_held_where_it_stands(a: Seq<char>, needle: Seq<char>, b: Seq<char>)
    ensures
        holds_text(a + needle + b, needle),
        forall|s: Seq<char>| #[trigger]
            holds_text(s, needle) ==> exists|i: int|
                0 <= i && i + needle.len() <= s.len() && #[trigger] s.subrange(
                    i,
                    i + needle.len(),
                ) == needle,
{
    let s = a + needle + b;
    assert(needle.is_prefix_of(s.skip(a.len() as int))) by {
        assert(s.skip(a.len() as int).take(needle.len() as int) =~= needle);
    }
    assert forall|s: Seq<char>| #[trigger] holds_text(s, needle) implies exists|i: int|
        0 <= i && i + needle.len() <= s.len() && #[trigger] s.subrange(i, i + needle.len())
            == needle by {
        let i = choose|i: int| 0 <= i <= s.len() && #[trigger] needle.is_prefix_of(s.skip(i));
        assert(s.subrange(i, i + needle.len()) =~= needle);
    }
}

/// Parts are joined in their order, with the separator between any two of them and nowhere
/// else.
pub proof fn law_parts_are_joined_in_order(
    parts: Seq<Seq<char>>,
    x: Seq<char>,
    y: Seq<char>,
    sep: Seq<char>,
)
    ensures
        join(Seq::empty(), sep) == Seq::<char>::empty(),
        join(seq![x], sep) == x,
        join(seq![x, y], sep) == x + sep + y,
        parts.len() > 0 ==> join(parts + seq![x], sep) == join(parts, sep) + sep + x,
{
    reveal_with_fuel(join, 3);
    assert(seq![x, y].drop_last() =~= seq![x]);
    let all = parts + seq![x];
    assert(all.drop_last() =~= parts);
    assert(all.last() == x);
}

/// The number that decimal digits spell, and how one is read.
pub open spec fn number_in(s: Seq<char>) -> int
    decreases s.len(),
{
    if s.len() == 0 {
        0
    } else {
        number_in(s.drop_last()) * 10 + (s.last() as int - '0' as int)
    }
}

/// A number is written in decimal digits that spell it, with no zero in front.
pub proof fn law_a_number_is_written_in_digits(n: nat)
    ensures
        number_in(decimal(n)) == n,
        forall|i: int| 0 <= i < decimal(n).len() ==> '0' <= #[trigger] decimal(n)[i] <= '9',
        decimal(n).len() > 0,
        n > 0 ==> decimal(n)[0] != '0',
    decreases n,
{
    if n < 10 {
        let s = decimal(n);
        assert(s.drop_last() =~= Seq::empty());
        assert(s.last() == digit(n));
        assert(number_in(s.drop_last()) == 0);
    } else {
        law_a_number_is_written_in_digits(n / 10);
        let front = decimal(n / 10);
        assert(decimal(n).drop_last() =~= front);
        assert(decimal(n).last() == digit(n % 10));
        assert(decimal(n)[0] == front[0]);
    }
}

/// What a hexadecimal digit is worth.
pub open spec fn hex_value(c: char) -> int {
    if '0' <= c <= '9' {
        c as int - '0' as int
    } else if 'a' <= c <= 'f' {
        c as int - 'a' as int + 10
    } else {
        -1
    }
}

/// Sixteen bits are written as four small hexadecimal digits that spell them.
pub proof fn law_sixteen_bits_are_four_digits(n: u16)
    ensures
        hex4(n).len() == 4,
        forall|i: int| 0 <= i < 4 ==> 0 <= hex_value(#[trigger] hex4(n)[i]) < 16,
        hex_value(hex4(n)[0]) * 0x1000 + hex_value(hex4(n)[1]) * 0x100 + hex_value(hex4(n)[2]) * 16
            + hex_value(hex4(n)[3]) == n,
{
    let h = hex4(n);
    assert(hex_value(h[0]) == n as int / 0x1000);
    assert(hex_value(h[1]) == n as int / 0x100 % 16);
    assert(hex_value(h[2]) == n as int / 16 % 16);
    assert(hex_value(h[3]) == n as int % 16);
}

/// Thirty-two bits are their high half and their low half.
pub proof fn law_thirty_two_bits_are_two_halves(n: u32, high: u16, low: u16)
    requires
        n == high * 0x1_0000 + low,
    ensures
        hex8(n) == hex4(high) + hex4(low),
{
    let (h, l): (int, int) = (n as int / 0x1_0000, n as int % 0x1_0000);
    assert(h == high && l == low);
    assert((n / 0x1_0000) as u16 == high);
    assert((n % 0x1_0000) as u16 == low);
    let (a, b) = (hex4((n / 0x1_0000) as u16), hex4((n % 0x1_0000) as u16));
    assert(hex8(n) == a + b);
}

} // verus!
