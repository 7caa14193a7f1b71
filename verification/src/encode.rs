//! The encodings that outside crates do for us, each behind one function.

use vstd::prelude::*;
use vstd::string::*;
use vstd::utf8::*;

verus! {

// ---------------------------------------------------------------------- base64

/// The character of six bits in URL-safe base64.
pub open spec fn base64url_digit(n: int) -> char {
    if n < 26 {
        (0x41 + n) as char
    } else if n < 52 {
        (0x61 + n - 26) as char
    } else if n < 62 {
        (0x30 + n - 52) as char
    } else if n == 62 {
        '-'
    } else {
        '_'
    }
}

/// The unpadded URL-safe base64 of some bytes: four characters for every three of them,
/// six bits each, and as many as hold the one or two that are left over.
pub open spec fn base64url(bytes: Seq<u8>) -> Seq<char>
    decreases bytes.len(),
{
    let a = bytes[0] as int;
    let b = bytes[1] as int;
    let c = bytes[2] as int;
    if bytes.len() == 0 {
        Seq::empty()
    } else if bytes.len() == 1 {
        seq![base64url_digit(a / 4), base64url_digit(a % 4 * 16)]
    } else if bytes.len() == 2 {
        seq![
            base64url_digit(a / 4),
            base64url_digit(a % 4 * 16 + b / 16),
            base64url_digit(b % 16 * 4),
        ]
    } else {
        seq![
            base64url_digit(a / 4),
            base64url_digit(a % 4 * 16 + b / 16),
            base64url_digit(b % 16 * 4 + c / 64),
            base64url_digit(c % 64),
        ] + base64url(bytes.skip(3))
    }
}

/// A character that unpadded URL-safe base64 is written in.
pub open spec fn base64url_char(c: char) -> bool {
    ('A' <= c <= 'Z') || ('a' <= c <= 'z') || ('0' <= c <= '9') || c == '-' || c == '_'
}

/// `base64::engine::general_purpose::URL_SAFE_NO_PAD.encode`: the bytes in the URL-safe
/// alphabet, without padding.
#[verifier::external_body]
pub(crate) fn b64url(bytes: &[u8]) -> (r: String)
    ensures
        r@ == base64url(bytes@),
{
    base64::Engine::encode(&base64::engine::general_purpose::URL_SAFE_NO_PAD, bytes)
}

/// Whatever the bytes, their base64 is written in characters that neither a URL nor a
/// compact serialization gives a meaning to, and holds four of them for every three.
pub proof fn law_base64url_is_safe(bytes: Seq<u8>)
    ensures
        forall|i: int|
            0 <= i < base64url(bytes).len() ==> base64url_char(#[trigger] base64url(bytes)[i]),
        base64url(bytes).len() == (bytes.len() * 4 + 2) / 3,
    decreases bytes.len(),
{
    assert(forall|n: int| 0 <= n < 64 ==> base64url_char(#[trigger] base64url_digit(n)));
    if bytes.len() >= 3 {
        law_base64url_is_safe(bytes.skip(3));
    }
}

/// Three bytes from four digits.
proof fn digits_tell_bytes_apart(a: int, b: int, c: int, x: int, y: int, z: int)
    requires
        0 <= a < 256,
        0 <= b < 256,
        0 <= c < 256,
        0 <= x < 256,
        0 <= y < 256,
        0 <= z < 256,
        base64url_digit(a / 4) == base64url_digit(x / 4),
        base64url_digit(a % 4 * 16 + b / 16) == base64url_digit(x % 4 * 16 + y / 16),
        base64url_digit(b % 16 * 4 + c / 64) == base64url_digit(y % 16 * 4 + z / 64),
        base64url_digit(c % 64) == base64url_digit(z % 64),
    ensures
        a == x,
        b == y,
        c == z,
{
    assert forall|m: int, n: int|
        0 <= m < 64 && 0 <= n < 64 && #[trigger] base64url_digit(m) == #[trigger] base64url_digit(
            n,
        ) implies m == n by {
        assert(base64url_digit(m) as int == base64url_digit(n) as int);
    }
    assert(a / 4 == x / 4);
    assert(a % 4 * 16 + b / 16 == x % 4 * 16 + y / 16);
    assert(b % 16 * 4 + c / 64 == y % 16 * 4 + z / 64);
    assert(c % 64 == z % 64);
}

/// Different bytes have different base64: what it stands for can be read back.
pub proof fn law_base64url_loses_nothing(s: Seq<u8>, t: Seq<u8>)
    requires
        base64url(s) == base64url(t),
    ensures
        s == t,
    decreases s.len(),
{
    law_base64url_is_safe(s);
    law_base64url_is_safe(t);
    assert(s.len() == t.len());
    let (u, v) = (base64url(s), base64url(t));
    if s.len() == 0 {
        assert(s =~= t);
    } else if s.len() == 1 {
        assert(u[0] == v[0] && u[1] == v[1]);
        digits_tell_bytes_apart(s[0] as int, 0, 0, t[0] as int, 0, 0);
        assert(s =~= t);
    } else if s.len() == 2 {
        assert(u[0] == v[0] && u[1] == v[1] && u[2] == v[2]);
        digits_tell_bytes_apart(s[0] as int, s[1] as int, 0, t[0] as int, t[1] as int, 0);
        assert(s =~= t);
    } else {
        assert(u[0] == v[0] && u[1] == v[1] && u[2] == v[2] && u[3] == v[3]);
        digits_tell_bytes_apart(
            s[0] as int,
            s[1] as int,
            s[2] as int,
            t[0] as int,
            t[1] as int,
            t[2] as int,
        );
        assert(base64url(s.skip(3)) =~= u.skip(4));
        assert(base64url(t.skip(3)) =~= v.skip(4));
        law_base64url_loses_nothing(s.skip(3), t.skip(3));
        assert forall|i: int| 0 <= i < s.len() implies s[i] == t[i] by {
            if i >= 3 {
                assert(s.skip(3)[i - 3] == t.skip(3)[i - 3]);
            }
        }
        assert(s =~= t);
    }
}

/// The bytes that a padded standard base64 text holds, or what is wrong with it.
pub uninterp spec fn base64_decoded(text: Seq<char>) -> Result<Seq<u8>, Seq<char>>;

/// `base64::engine::general_purpose::STANDARD.decode`. The bytes, or the text of
/// the error, depend on the text alone.
#[verifier::external_body]
pub(crate) fn b64decode(text: &str) -> (r: Result<Vec<u8>, String>)
    ensures
        base64_decoded(text@) == match r {
            Ok(v) => Ok::<Seq<u8>, Seq<char>>(v@),
            Err(e) => Err::<Seq<u8>, Seq<char>>(e@),
        },
{
    base64::Engine::decode(&base64::engine::general_purpose::STANDARD, text).map_err(
        |e| e.to_string(),
    )
}

// --------------------------------------------------------------------- SHA-256

/// The SHA-256 of some bytes.
pub uninterp spec fn sha256_of(bytes: Seq<u8>) -> Seq<u8>;

/// `sha2::Sha256::digest`. It depends on the bytes alone and is 32 bytes long.
#[verifier::external_body]
pub(crate) fn sha256(bytes: &[u8]) -> (r: Vec<u8>)
    ensures
        r@ == sha256_of(bytes@),
        r@.len() == 32,
{
    <sha2::Sha256 as sha2::Digest>::digest(bytes).to_vec()
}

// ------------------------------------------------------------- query parameters

/// The bytes that stand for themselves in a query parameter.
pub open spec fn form_plain(b: u8) -> bool {
    ||| b == 0x2a  // *
    ||| b == 0x2d  // -
    ||| b == 0x2e  // .
    ||| 0x30 <= b <= 0x39
    ||| 0x41 <= b <= 0x5a
    ||| b == 0x5f  // _
    ||| 0x61 <= b <= 0x7a
}

/// One uppercase hexadecimal digit.
pub open spec fn upper_hex(n: u8) -> char {
    if n < 10 {
        (0x30 + n) as char
    } else {
        (0x37 + n) as char
    }
}

/// One byte of a query parameter.
pub open spec fn form_byte(b: u8) -> Seq<char> {
    if form_plain(b) {
        seq![b as char]
    } else if b == 0x20 {
        seq!['+']
    } else {
        seq!['%', upper_hex((b / 16) as u8), upper_hex((b % 16) as u8)]
    }
}

/// The bytes of a query parameter, one after another.
pub open spec fn form_bytes(bytes: Seq<u8>) -> Seq<char>
    decreases bytes.len(),
{
    if bytes.len() == 0 {
        Seq::empty()
    } else {
        form_bytes(bytes.drop_last()) + form_byte(bytes.last())
    }
}

/// A text as a query parameter.
pub open spec fn form_text(s: Seq<char>) -> Seq<char> {
    form_bytes(encode_utf8(s))
}

/// `form_urlencoded::Serializer::append_pair` on an empty serializer, and
/// `finish`: the name, an equals sign and the value, both byte by byte as the
/// `application/x-www-form-urlencoded` serializer writes them.
#[verifier::external_body]
pub(crate) fn form_pair(name: &str, value: &str) -> (r: String)
    ensures
        r@ == form_text(name@) + seq!['='] + form_text(value@),
{
    form_urlencoded::Serializer::new(String::new()).append_pair(name, value).finish()
}

/// A character that a query parameter may hold.
pub open spec fn form_char(c: char) -> bool {
    ||| c == '*' || c == '-' || c == '.' || c == '_' || c == '+' || c == '%'
    ||| '0' <= c <= '9'
    ||| 'A' <= c <= 'Z'
    ||| 'a' <= c <= 'z'
}

/// Whatever a parameter says, it is sent in characters a query string may hold:
/// no delimiter of a URL survives in it.
pub proof fn law_a_parameter_is_sent_in_safe_characters(s: Seq<char>)
    ensures
        forall|i: int| 0 <= i < form_text(s).len() ==> form_char(#[trigger] form_text(s)[i]),
{
    form_bytes_are_safe(encode_utf8(s));
}

proof fn form_bytes_are_safe(bytes: Seq<u8>)
    ensures
        forall|i: int| 0 <= i < form_bytes(bytes).len() ==> form_char(#[trigger] form_bytes(bytes)[i]),
    decreases bytes.len(),
{
    if bytes.len() > 0 {
        form_bytes_are_safe(bytes.drop_last());
        let b = bytes.last();
        let head = form_bytes(bytes.drop_last());
        assert forall|i: int| 0 <= i < form_bytes(bytes).len() implies form_char(
            #[trigger] form_bytes(bytes)[i],
        ) by {
            if i >= head.len() {
                form_byte_is_safe(b, i - head.len());
            }
        }
    }
}

proof fn form_byte_is_safe(b: u8, i: int)
    requires
        0 <= i < form_byte(b).len(),
    ensures
        form_char(form_byte(b)[i]),
{
    let high = (b / 16) as u8;
    let low = (b % 16) as u8;
    assert(high < 16 && low < 16);
    if !form_plain(b) && b != 0x20 {
        assert(form_byte(b) =~= seq!['%', upper_hex(high), upper_hex(low)]);
        assert(form_char(upper_hex(high)));
        assert(form_char(upper_hex(low)));
    }
}

// ------------------------------------------------------------------------ text

/// `str::to_uppercase`.
pub uninterp spec fn uppercased(s: Seq<char>) -> Seq<char>;

/// `str::to_uppercase`. The result depends on the text alone.
#[verifier::external_body]
pub(crate) fn uppercase(s: &str) -> (r: String)
    ensures
        r@ == uppercased(s@),
{
    s.to_uppercase()
}

/// A text in quotes, with what would not print escaped.
pub uninterp spec fn quoted_text(s: Seq<char>) -> Seq<char>;

/// The `Debug` form of a `str`. It depends on the text alone.
#[verifier::external_body]
pub(crate) fn quoted(s: &str) -> (r: String)
    ensures
        r@ == quoted_text(s@),
{
    format!("{s:?}")
}

/// What a character of the URL-safe alphabet is worth.
pub open spec fn sextet(c: char) -> int {
    if 'A' <= c <= 'Z' {
        c as int - 'A' as int
    } else if 'a' <= c <= 'z' {
        c as int - 'a' as int + 26
    } else if '0' <= c <= '9' {
        c as int - '0' as int + 52
    } else if c == '-' {
        62
    } else if c == '_' {
        63
    } else {
        -1
    }
}

proof fn digit_is_worth(n: int)
    requires
        0 <= n < 64,
    ensures
        sextet(base64url_digit(n)) == n,
{
}

/// Three bytes are four characters worth the same 24 bits, ahead of whatever follows; two
/// at the end are three characters and one is two, with zero bits behind.
pub proof fn law_base64url_reads_back(a: u8, b: u8, c: u8, rest: Seq<u8>)
    ensures
        ({
            let s = base64url(seq![a, b, c] + rest);
            &&& s.len() == 4 + base64url(rest).len()
            &&& sextet(s[0]) * 0x4_0000 + sextet(s[1]) * 0x1000 + sextet(s[2]) * 0x40 + sextet(s[3])
                == a * 0x1_0000 + b * 0x100 + c
            &&& 0 <= sextet(s[0]) < 64 && 0 <= sextet(s[1]) < 64 && 0 <= sextet(s[2]) < 64 && 0
                <= sextet(s[3]) < 64
            &&& s.skip(4) == base64url(rest)
        }),
        ({
            let s = base64url(seq![a, b]);
            &&& s.len() == 3
            &&& sextet(s[0]) * 0x1000 + sextet(s[1]) * 0x40 + sextet(s[2]) == (a * 0x100 + b) * 4
            &&& 0 <= sextet(s[0]) < 64 && 0 <= sextet(s[1]) < 64 && 0 <= sextet(s[2]) < 64
        }),
        ({
            let s = base64url(seq![a]);
            &&& s.len() == 2
            &&& sextet(s[0]) * 0x40 + sextet(s[1]) == a * 16
            &&& 0 <= sextet(s[0]) < 64 && 0 <= sextet(s[1]) < 64
        }),
        base64url(Seq::empty()) == Seq::<char>::empty(),
{
    let (x, y, z) = (a as int, b as int, c as int);
    digit_is_worth(x / 4);
    digit_is_worth(x % 4 * 16);
    digit_is_worth(x % 4 * 16 + y / 16);
    digit_is_worth(y % 16 * 4);
    digit_is_worth(y % 16 * 4 + z / 64);
    digit_is_worth(z % 64);
    let all = seq![a, b, c] + rest;
    assert(all.skip(3) =~= rest);
    let s = base64url(all);
    assert(s.skip(4) =~= base64url(rest));
}

/// What an upper-case hexadecimal digit is worth.
pub open spec fn hex_worth(c: char) -> int {
    if '0' <= c <= '9' {
        c as int - '0' as int
    } else {
        c as int - 'A' as int + 10
    }
}

/// The bytes that a form parameter stands for, as a server reads it.
pub open spec fn unformed(s: Seq<char>) -> Seq<u8>
    decreases s.len(),
{
    if s.len() == 0 {
        Seq::empty()
    } else if s[0] == '+' {
        seq![0x20u8] + unformed(s.skip(1))
    } else if s[0] == '%' && s.len() >= 3 {
        seq![(hex_worth(s[1]) * 16 + hex_worth(s[2])) as u8] + unformed(s.skip(3))
    } else {
        seq![s[0] as u8] + unformed(s.skip(1))
    }
}

proof fn first_byte_first(b: Seq<u8>)
    requires
        b.len() > 0,
    ensures
        form_bytes(b) == form_byte(b[0]) + form_bytes(b.skip(1)),
    decreases b.len(),
{
    if b.len() == 1 {
        assert(b.drop_last() =~= Seq::empty());
        assert(b.skip(1) =~= Seq::empty());
        assert(form_bytes(b) =~= form_byte(b[0]) + form_bytes(b.skip(1)));
    } else {
        first_byte_first(b.drop_last());
        assert(b.drop_last().skip(1) =~= b.skip(1).drop_last());
        assert(b.skip(1).last() == b.last());
        assert(form_bytes(b) =~= form_byte(b[0]) + form_bytes(b.skip(1)));
    }
}

/// What is sent as a form parameter is read as the same bytes.
pub proof fn law_a_parameter_reads_back(b: Seq<u8>)
    ensures
        unformed(form_bytes(b)) == b,
    decreases b.len(),
{
    if b.len() > 0 {
        first_byte_first(b);
        let rest = form_bytes(b.skip(1));
        law_a_parameter_reads_back(b.skip(1));
        let x = b[0];
        let head = form_byte(x);
        let s = head + rest;
        if form_plain(x) {
            assert(s.skip(1) =~= rest);
            assert(s[0] == x as char);
            assert(s[0] as u8 == x);
        } else if x == 0x20 {
            assert(s.skip(1) =~= rest);
        } else {
            assert(s.skip(3) =~= rest);
            assert(s[0] == '%');
            assert(hex_worth(s[1]) == x as int / 16);
            assert(hex_worth(s[2]) == x as int % 16);
        }
        assert(seq![x] + b.skip(1) =~= b);
    }
}

/// Letters, digits and the four marks `*-._` are sent as they are, a space as a plus, and
/// any other byte behind a percent sign.
pub proof fn law_what_is_sent_as_it_is(b: u8)
    ensures
        ({
            let plain = (0x30 <= b <= 0x39) || (0x41 <= b <= 0x5a) || (0x61 <= b <= 0x7a) || b
                == 0x2a || b == 0x2d || b == 0x2e || b == 0x5f;
            &&& plain ==> form_byte(b) == seq![b as char]
            &&& b == 0x20 ==> form_byte(b) == seq!['+']
            &&& !plain && b != 0x20 ==> form_byte(b).len() == 3 && form_byte(b)[0] == '%'
        }),
{
}

} // verus!
