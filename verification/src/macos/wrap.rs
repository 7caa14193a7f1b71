//! Breaking a status line to a width.
//!
//! Columns rather than characters, and a hard split rather than only a soft one,
//! because both are what translated sentences need: the same sentence in Japanese is
//! twice as wide per character and has no spaces to break at, so counting characters
//! would leave it just as wide and breaking only at spaces would not break it at all.

use crate::lists;
use crate::text;
use crate::text::{chars_of, is_white, join_all};
use vstd::prelude::*;
use vstd::string::*;

verus! {

/// How wide a status line may get before it is broken, in columns.
pub const WRAP_COLUMNS: usize = 56;

/// The East Asian wide and fullwidth ranges.
pub open spec fn wide_char(c: char) -> bool {
    ||| 0x1100 <= c as u32 <= 0x115f
    ||| 0x2e80 <= c as u32 <= 0xa4cf
    ||| 0xac00 <= c as u32 <= 0xd7a3
    ||| 0xf900 <= c as u32 <= 0xfaff
    ||| 0xfe30 <= c as u32 <= 0xfe6f
    ||| 0xff00 <= c as u32 <= 0xff60
    ||| 0xffe0 <= c as u32 <= 0xffe6
    ||| 0x2_0000 <= c as u32 <= 0x3_fffd
}

/// The columns of a character.
pub open spec fn width_of(c: char) -> int {
    if wide_char(c) {
        2
    } else {
        1
    }
}

/// The columns of a text.
pub open spec fn width(s: Seq<char>) -> int
    decreases s.len(),
{
    if s.len() == 0 {
        0
    } else {
        width(s.drop_last()) + width_of(s.last())
    }
}

/// Two columns for the East Asian wide and fullwidth ranges, one for everything else.
/// The usual approximation, and enough for a menu -- it decides where a line breaks,
/// not how anything is drawn.
pub fn char_columns(c: char) -> (r: usize)
    ensures
        r == width_of(c),
{
    let n: u32 = c as u32;
    if (0x1100 <= n && n <= 0x115f) || (0x2e80 <= n && n <= 0xa4cf) || (0xac00 <= n && n
        <= 0xd7a3) || (0xf900 <= n && n <= 0xfaff) || (0xfe30 <= n && n <= 0xfe6f) || (0xff00 <= n
        && n <= 0xff60) || (0xffe0 <= n && n <= 0xffe6) || (0x2_0000 <= n && n <= 0x3_fffd) {
        2
    } else {
        1
    }
}

/// The columns of a text, as long as they can be counted.
pub fn columns(s: &str) -> (r: usize)
    requires
        s@.len() <= usize::MAX / 2,
    ensures
        r == width(s@),
{
    let v = chars_of(s);
    let mut sum: usize = 0;
    let mut i: usize = 0;
    assert(v@.take(0) =~= Seq::empty());
    while i < v.len()
        invariant
            v@ == s@,
            v@.len() <= usize::MAX / 2,
            i <= v@.len(),
            sum == width(v@.take(i as int)),
            sum <= 2 * i,
        decreases v@.len() - i,
    {
        proof {
            assert(v@.take(i + 1).drop_last() =~= v@.take(i as int));
            assert(v@.take(i + 1).last() == v@[i as int]);
        }
        sum = sum + char_columns(v[i]);
        i = i + 1;
    }
    assert(v@.take(i as int) =~= s@);
    sum
}

// -------------------------------------------------------------------- the words

/// The last of some texts with one character more.
pub open spec fn longer(v: Seq<Seq<char>>, c: char) -> Seq<Seq<char>> {
    v.drop_last().push(v.last().push(c))
}

/// The runs of characters that are not white space.
pub open spec fn words(s: Seq<char>) -> Seq<Seq<char>>
    decreases s.len(),
{
    if s.len() == 0 {
        seq![]
    } else {
        let before = words(s.drop_last());
        if text::white(s.last()) {
            before
        } else if s.len() > 1 && !text::white(s[s.len() - 2]) {
            longer(before, s.last())
        } else {
            before.push(seq![s.last()])
        }
    }
}

fn extend_last(v: &mut Vec<String>, c: char)
    requires
        old(v)@.len() > 0,
    ensures
        text::texts(final(v)@) == longer(text::texts(old(v)@), c),
        final(v)@.len() == old(v)@.len(),
{
    let ghost was = text::texts(v@);
    match v.pop() {
        Some(last) => {
            let mut last = last;
            last.push(c);
            v.push(last);
            assert(last@ =~= was.last().push(c));
            assert(text::texts(v@) =~= longer(was, c));
        },
        None => {},
    }
}

/// The words of a text.
pub fn words_of(s: &str) -> (r: Vec<String>)
    ensures
        text::texts(r@) == words(s@),
{
    let v = chars_of(s);
    let mut out: Vec<String> = Vec::new();
    let mut inside = false;
    let mut i: usize = 0;
    proof {
        assert(v@.take(0) =~= Seq::empty());
        assert(text::texts(out@) =~= Seq::empty());
    }
    while i < v.len()
        invariant
            v@ == s@,
            i <= v@.len(),
            text::texts(out@) == words(v@.take(i as int)),
            inside == (i > 0 && !text::white(v@[i - 1])),
            inside ==> out@.len() > 0,
        decreases v@.len() - i,
    {
        let c = v[i];
        let ghost t = v@.take(i + 1);
        proof {
            assert(t.drop_last() =~= v@.take(i as int));
            assert(t.last() == c);
            if i > 0 {
                assert(t[t.len() - 2] == v@[i - 1]);
            }
        }
        let ghost was = text::texts(out@);
        if is_white(c) {
            inside = false;
        } else if inside {
            extend_last(&mut out, c);
        } else {
            let mut word = String::new();
            word.push(c);
            assert(word@ =~= seq![c]);
            out.push(word);
            assert(text::texts(out@) =~= was.push(seq![c]));
            inside = true;
        }
        i = i + 1;
    }
    assert(v@.take(i as int) =~= s@);
    out
}

// ------------------------------------------------------------------- the pieces

/// A word cut where it would not fit a line.
pub open spec fn pieces(word: Seq<char>) -> Seq<Seq<char>>
    decreases word.len(),
{
    if word.len() == 0 {
        seq![]
    } else {
        let before = pieces(word.drop_last());
        if before.len() > 0 && width(before.last()) + width_of(word.last()) <= WRAP_COLUMNS {
            longer(before, word.last())
        } else {
            before.push(seq![word.last()])
        }
    }
}

/// The pieces of some words.
pub open spec fn all_pieces(ws: Seq<Seq<char>>) -> Seq<Seq<char>>
    decreases ws.len(),
{
    if ws.len() == 0 {
        seq![]
    } else {
        all_pieces(ws.drop_last()) + pieces(ws.last())
    }
}

/// One word as pieces that each fit a line. A word inside the budget is itself.
pub fn chunks(word: &str) -> (r: Vec<String>)
    ensures
        text::texts(r@) == pieces(word@),
{
    let v = chars_of(word);
    let mut out: Vec<String> = Vec::new();
    let mut last: usize = 0;
    let mut i: usize = 0;
    proof {
        assert(v@.take(0) =~= Seq::empty());
        assert(text::texts(out@) =~= Seq::empty());
    }
    while i < v.len()
        invariant
            v@ == word@,
            i <= v@.len(),
            text::texts(out@) == pieces(v@.take(i as int)),
            out@.len() > 0 ==> last == width(text::texts(out@).last()),
            last <= WRAP_COLUMNS,
            out@.len() == 0 ==> i == 0,
        decreases v@.len() - i,
    {
        let c = v[i];
        let w: usize = char_columns(c);
        proof {
            let t = v@.take(i + 1);
            assert(t.drop_last() =~= v@.take(i as int));
            assert(t.last() == c);
        }
        let ghost was = text::texts(out@);
        if out.len() > 0 && last + w <= WRAP_COLUMNS {
            extend_last(&mut out, c);
            last = last + w;
            proof {
                let l = was.last().push(c);
                assert(text::texts(out@).last() == l);
                assert(l.drop_last() =~= was.last());
            }
        } else {
            let mut one = String::new();
            one.push(c);
            assert(one@ =~= seq![c]);
            out.push(one);
            last = w;
            proof {
                assert(text::texts(out@) =~= was.push(seq![c]));
                width_of_one(c);
            }
        }
        i = i + 1;
    }
    assert(v@.take(i as int) =~= word@);
    out
}

// -------------------------------------------------------------------- the lines

/// Pieces filled into lines: as many on each as fit, with a space between them.
pub open spec fn filled(ps: Seq<Seq<char>>) -> Seq<Seq<char>>
    decreases ps.len(),
{
    if ps.len() == 0 {
        seq![]
    } else {
        let before = filled(ps.drop_last());
        if before.len() > 0 && width(before.last()) + 1 + width(ps.last()) <= WRAP_COLUMNS {
            before.drop_last().push(before.last() + seq![' '] + ps.last())
        } else {
            before.push(ps.last())
        }
    }
}

/// The lines that a text is broken into.
pub open spec fn lines(s: Seq<char>) -> Seq<Seq<char>> {
    filled(all_pieces(words(s)))
}

/// A text broken to the width.
pub open spec fn wrapped(s: Seq<char>) -> Seq<char> {
    text::join(lines(s), seq!['\n'])
}

/// The text of a piece fits a line.
proof fn pieces_fit(word: Seq<char>)
    ensures
        forall|i: int|
            0 <= i < pieces(word).len() ==> 0 < (#[trigger] pieces(word)[i]).len() && 0 < width(
                pieces(word)[i],
            ) <= WRAP_COLUMNS,
    decreases word.len(),
{
    if word.len() > 0 {
        let before = pieces(word.drop_last());
        let c = word.last();
        pieces_fit(word.drop_last());
        let l = before.last().push(c);
        assert(l.drop_last() =~= before.last());
        width_of_one(c);
        if before.len() > 0 {
            assert(width(l) == width(before.last()) + width_of(c));
            assert(before.last() == before[before.len() - 1]);
        }
    }
}

fn put_pieces(out: &mut Vec<String>, more: Vec<String>)
    ensures
        text::texts(final(out)@) == text::texts(old(out)@) + text::texts(more@),
{
    let ghost was = text::texts(out@);
    let mut i: usize = 0;
    assert(text::texts(out@) =~= was + text::texts(more@).take(0));
    while i < more.len()
        invariant
            i <= more@.len(),
            text::texts(out@) == was + text::texts(more@).take(i as int),
        decreases more@.len() - i,
    {
        let ghost now = text::texts(out@);
        out.push(more[i].clone());
        i = i + 1;
        assert(text::texts(out@) =~= now.push(more@[i - 1]@));
        assert(text::texts(out@) =~= was + text::texts(more@).take(i as int));
    }
    assert(text::texts(more@).take(i as int) =~= text::texts(more@));
}

fn pieces_of(ws: &Vec<String>) -> (r: Vec<String>)
    ensures
        text::texts(r@) == all_pieces(text::texts(ws@)),
{
    let ghost all = text::texts(ws@);
    let mut out: Vec<String> = Vec::new();
    let mut i: usize = 0;
    proof {
        assert(all.take(0) =~= Seq::empty());
        assert(text::texts(out@) =~= Seq::empty());
    }
    while i < ws.len()
        invariant
            all == text::texts(ws@),
            i <= ws@.len(),
            text::texts(out@) == all_pieces(all.take(i as int)),
        decreases ws@.len() - i,
    {
        proof {
            let t = all.take(i + 1);
            assert(t.drop_last() =~= all.take(i as int));
            assert(t.last() == ws@[i as int]@);
        }
        let more = chunks(ws[i].as_str());
        put_pieces(&mut out, more);
        i = i + 1;
    }
    assert(all.take(i as int) =~= all);
    out
}

proof fn all_pieces_fit(ws: Seq<Seq<char>>)
    ensures
        forall|i: int|
            0 <= i < all_pieces(ws).len() ==> 0 < (#[trigger] all_pieces(ws)[i]).len() && 0
                < width(all_pieces(ws)[i]) <= WRAP_COLUMNS,
    decreases ws.len(),
{
    if ws.len() > 0 {
        all_pieces_fit(ws.drop_last());
        pieces_fit(ws.last());
        let a = all_pieces(ws.drop_last());
        let b = pieces(ws.last());
        assert forall|i: int| 0 <= i < (a + b).len() implies 0 < (#[trigger] (a + b)[i]).len() && 0
            < width((a + b)[i]) <= WRAP_COLUMNS by {
            if i < a.len() {
                assert((a + b)[i] == a[i]);
            } else {
                assert((a + b)[i] == b[i - a.len()]);
            }
        }
    }
}

/// The columns of two texts are those of both.
proof fn width_adds(a: Seq<char>, b: Seq<char>)
    ensures
        width(a + b) == width(a) + width(b),
    decreases b.len(),
{
    if b.len() == 0 {
        assert(a + b =~= a);
    } else {
        width_adds(a, b.drop_last());
        assert((a + b).drop_last() =~= a + b.drop_last());
        assert((a + b).last() == b.last());
    }
}

/// The columns of one character.
proof fn width_of_one(c: char)
    ensures
        width(seq![c]) == width_of(c),
{
    assert(seq![c].drop_last() =~= Seq::<char>::empty());
    assert(width(Seq::<char>::empty()) == 0);
}

/// A text is at least as wide as it has characters, and at most twice that.
proof fn width_bounds(s: Seq<char>)
    ensures
        s.len() <= width(s) <= 2 * s.len(),
    decreases s.len(),
{
    if s.len() > 0 {
        width_bounds(s.drop_last());
    }
}

fn lines_of(ps: &Vec<String>) -> (r: Vec<String>)
    requires
        forall|i: int|
            0 <= i < ps@.len() ==> 0 < width((#[trigger] text::texts(ps@)[i])) <= WRAP_COLUMNS,
    ensures
        text::texts(r@) == filled(text::texts(ps@)),
{
    let ghost all = text::texts(ps@);
    let mut out: Vec<String> = Vec::new();
    let mut last: usize = 0;
    let mut i: usize = 0;
    proof {
        assert(all.take(0) =~= Seq::empty());
        assert(text::texts(out@) =~= Seq::empty());
    }
    while i < ps.len()
        invariant
            all == text::texts(ps@),
            forall|k: int| 0 <= k < ps@.len() ==> 0 < width((#[trigger] all[k])) <= WRAP_COLUMNS,
            i <= ps@.len(),
            text::texts(out@) == filled(all.take(i as int)),
            out@.len() > 0 ==> last == width(text::texts(out@).last()),
            last <= WRAP_COLUMNS,
        decreases ps@.len() - i,
    {
        let ghost was = text::texts(out@);
        proof {
            let t = all.take(i + 1);
            assert(t.drop_last() =~= all.take(i as int));
            assert(t.last() == all[i as int]);
            assert(all[i as int] == ps@[i as int]@);
            width_bounds(all[i as int]);
        }
        let w: usize = columns(ps[i].as_str());
        if out.len() > 0 && last + 1 + w <= WRAP_COLUMNS {
            match out.pop() {
                Some(line) => {
                    let mut line = line;
                    let ghost before = line@;
                    proof {
                        reveal_strlit(" ");
                        assert(" "@ =~= seq![' ']);
                        width_adds(before, seq![' ']);
                        width_adds(before + seq![' '], all[i as int]);
                        width_of_one(' ');
                    }
                    line.append(" ");
                    line.append(ps[i].as_str());
                    out.push(line);
                    last = last + 1 + w;
                    assert(text::texts(out@) =~= was.drop_last().push(
                        was.last() + seq![' '] + all[i as int],
                    ));
                },
                None => {},
            }
        } else {
            out.push(ps[i].clone());
            last = w;
            assert(text::texts(out@) =~= was.push(all[i as int]));
        }
        i = i + 1;
    }
    assert(all.take(i as int) =~= all);
    out
}

/// Break a text to the width, preferring spaces and splitting a word that does not fit
/// on a line of its own.
pub fn wrap(s: &str) -> (r: String)
    ensures
        r@ == wrapped(s@),
{
    let ws = words_of(s);
    let ps = pieces_of(&ws);
    proof {
        all_pieces_fit(words(s@));
        reveal_strlit("\n");
        assert("\n"@ =~= seq!['\n']);
    }
    let ls = lines_of(&ps);
    join_all(&ls, "\n")
}

// ------------------------------------------------------------------------ laws

proof fn filled_fits(ps: Seq<Seq<char>>)
    requires
        forall|i: int| 0 <= i < ps.len() ==> 0 < width(#[trigger] ps[i]) <= WRAP_COLUMNS,
    ensures
        forall|i: int|
            0 <= i < filled(ps).len() ==> 0 < width(#[trigger] filled(ps)[i]) <= WRAP_COLUMNS,
    decreases ps.len(),
{
    if ps.len() > 0 {
        let rest = ps.drop_last();
        assert forall|i: int| 0 <= i < rest.len() implies 0 < width(#[trigger] rest[i])
            <= WRAP_COLUMNS by {
            assert(rest[i] == ps[i]);
        }
        filled_fits(rest);
        let before = filled(rest);
        let p = ps[ps.len() - 1];
        if before.len() > 0 {
            assert(before.last() == before[before.len() - 1]);
            width_adds(before.last(), seq![' ']);
            width_adds(before.last() + seq![' '], p);
            width_of_one(' ');
        }
    }
}

/// No line is wider than the budget, whatever the text is: not a failure sentence
/// with the address that produced it, not a word without a space to break at, and not
/// a script of wide characters.
pub proof fn law_no_line_is_too_wide(s: Seq<char>, i: int)
    requires
        0 <= i < lines(s).len(),
    ensures
        0 < width(lines(s)[i]) <= WRAP_COLUMNS,
{
    all_pieces_fit(words(s));
    filled_fits(all_pieces(words(s)));
}

/// The words of several texts, one after another.
pub open spec fn words_of_all(v: Seq<Seq<char>>) -> Seq<Seq<char>>
    decreases v.len(),
{
    if v.len() == 0 {
        seq![]
    } else {
        words_of_all(v.drop_last()) + words(v.last())
    }
}

/// White space between two texts parts their words.
proof fn words_part(a: Seq<char>, w: char, b: Seq<char>)
    requires
        text::white(w),
    ensures
        words(a + seq![w] + b) == words(a) + words(b),
    decreases b.len(),
{
    let s = a + seq![w] + b;
    if b.len() == 0 {
        assert(s.drop_last() =~= a);
        assert(s.last() == w);
        assert(words(a) + words(b) =~= words(a));
    } else {
        let c = b.drop_last();
        words_part(a, w, c);
        assert(s.drop_last() =~= a + seq![w] + c);
        assert(s.last() == b.last());
        if b.len() > 1 {
            assert(s[s.len() - 2] == b[b.len() - 2]);
            if !text::white(b[b.len() - 2]) {
                words_are_there(c);
                assert(longer(words(a) + words(c), b.last()) =~= words(a) + longer(
                    words(c),
                    b.last(),
                ));
            }
        } else {
            assert(s[s.len() - 2] == w);
        }
        if !text::white(b.last()) && !(b.len() > 1 && !text::white(b[b.len() - 2])) {
            assert((words(a) + words(c)).push(seq![b.last()]) =~= words(a) + words(c).push(
                seq![b.last()],
            ));
        }
    }
}

/// A text that ends in a word has one.
proof fn words_are_there(s: Seq<char>)
    requires
        s.len() > 0,
        !text::white(s.last()),
    ensures
        words(s).len() > 0,
{
}

/// A text without white space in it is one word.
proof fn a_word_is_itself(s: Seq<char>)
    requires
        s.len() > 0,
        forall|i: int| 0 <= i < s.len() ==> !text::white(#[trigger] s[i]),
    ensures
        words(s) == seq![s],
    decreases s.len(),
{
    assert(s.last() == s[s.len() - 1]);
    let before = s.drop_last();
    if s.len() > 1 {
        assert forall|i: int| 0 <= i < before.len() implies !text::white(#[trigger] before[i]) by {
            assert(before[i] == s[i]);
        }
        a_word_is_itself(before);
        assert(longer(seq![before], s.last()) =~= seq![s]) by {
            assert(before.push(s.last()) =~= s);
        }
    } else {
        assert(before =~= Seq::empty());
        assert(seq![s.last()] =~= s);
        assert(words(before).push(s) =~= seq![s]);
    }
}

/// No word has white space in it, and none is empty.
proof fn words_are_solid(s: Seq<char>)
    ensures
        forall|i: int, k: int|
            0 <= i < words(s).len() && 0 <= k < words(s)[i].len() ==> !text::white(
                #[trigger] words(s)[i][k],
            ),
        forall|i: int| 0 <= i < words(s).len() ==> (#[trigger] words(s)[i]).len() > 0,
    decreases s.len(),
{
    if s.len() > 0 {
        words_are_solid(s.drop_last());
        let before = words(s.drop_last());
        if !text::white(s.last()) {
            if s.len() > 1 && !text::white(s[s.len() - 2]) {
                assert(s.drop_last().last() == s[s.len() - 2]);
                words_are_there(s.drop_last());
                let l = before.last().push(s.last());
                let n = before.len() - 1;
                assert(before.last() == before[n]);
                assert forall|i: int, k: int|
                    0 <= i < words(s).len() && 0 <= k < words(s)[i].len() implies !text::white(
                    #[trigger] words(s)[i][k],
                ) by {
                    if i < n {
                        assert(words(s)[i] == before[i]);
                    } else {
                        assert(words(s)[i] == l);
                        if k < before[n].len() {
                            assert(l[k] == before[n][k]);
                        }
                    }
                }
            }
        }
    }
}

/// A word inside the budget is one piece.
proof fn a_short_word_is_whole(word: Seq<char>)
    requires
        word.len() > 0,
        width(word) <= WRAP_COLUMNS,
    ensures
        pieces(word) == seq![word],
    decreases word.len(),
{
    let before = word.drop_last();
    if before.len() > 0 {
        width_bounds(before);
        a_short_word_is_whole(before);
        assert(longer(seq![before], word.last()) =~= seq![word]) by {
            assert(before.push(word.last()) =~= word);
        }
    } else {
        assert(before =~= Seq::empty());
        assert(pieces(before).push(seq![word.last()]) =~= seq![word]) by {
            assert(seq![word.last()] =~= word);
        }
    }
}

/// Words inside the budget are their own pieces.
proof fn short_words_are_whole(ws: Seq<Seq<char>>)
    requires
        forall|i: int|
            0 <= i < ws.len() ==> (#[trigger] ws[i]).len() > 0 && width(ws[i]) <= WRAP_COLUMNS,
    ensures
        all_pieces(ws) == ws,
    decreases ws.len(),
{
    if ws.len() > 0 {
        let rest = ws.drop_last();
        assert forall|i: int| 0 <= i < rest.len() implies (#[trigger] rest[i]).len() > 0 && width(
            rest[i],
        ) <= WRAP_COLUMNS by {
            assert(rest[i] == ws[i]);
        }
        short_words_are_whole(rest);
        a_short_word_is_whole(ws[ws.len() - 1]);
        assert(rest + seq![ws.last()] =~= ws);
    } else {
        assert(all_pieces(ws) =~= ws);
    }
}

/// Filling lines keeps the words.
proof fn filling_keeps_words(ps: Seq<Seq<char>>)
    requires
        forall|i: int| 0 <= i < ps.len() ==> words(#[trigger] ps[i]) == seq![ps[i]],
    ensures
        words_of_all(filled(ps)) == ps,
    decreases ps.len(),
{
    if ps.len() == 0 {
        assert(words_of_all(filled(ps)) =~= ps);
    } else {
        let rest = ps.drop_last();
        let p = ps[ps.len() - 1];
        assert forall|i: int| 0 <= i < rest.len() implies words(#[trigger] rest[i])
            == seq![rest[i]] by {
            assert(rest[i] == ps[i]);
        }
        filling_keeps_words(rest);
        let before = filled(rest);
        let now = filled(ps);
        assert(words(p) == seq![p]);
        if before.len() > 0 && width(before.last()) + 1 + width(p) <= WRAP_COLUMNS {
            assert(now.drop_last() =~= before.drop_last());
            words_part(before.last(), ' ', p);
            assert(words_of_all(now) =~= words_of_all(before.drop_last()) + (words(before.last())
                + seq![p]));
            assert(words_of_all(before) == words_of_all(before.drop_last()) + words(before.last()));
            assert(words_of_all(now) =~= words_of_all(before) + seq![p]);
        } else {
            assert(now.drop_last() =~= before);
            assert(words_of_all(now) =~= words_of_all(before) + seq![p]);
        }
        assert(rest + seq![p] =~= ps);
    }
}

/// Joining lines keeps their words.
proof fn joining_keeps_words(v: Seq<Seq<char>>)
    ensures
        words(text::join(v, seq!['\n'])) == words_of_all(v),
    decreases v.len(),
{
    if v.len() == 0 {
        assert(words_of_all(v) =~= words(Seq::empty()));
    } else if v.len() == 1 {
        assert(v.drop_last() =~= Seq::empty());
        assert(words_of_all(v) =~= words(v[0])) by {
            assert(words_of_all(v.drop_last()) =~= Seq::empty());
        }
    } else {
        joining_keeps_words(v.drop_last());
        words_part(text::join(v.drop_last(), seq!['\n']), '\n', v.last());
    }
}

/// Texts one after another.
pub open spec fn flat(v: Seq<Seq<char>>) -> Seq<char>
    decreases v.len(),
{
    if v.len() == 0 {
        seq![]
    } else {
        flat(v.drop_last()) + v.last()
    }
}

/// The characters that show.
pub open spec fn solid() -> spec_fn(char) -> bool {
    |c: char| !text::white(c)
}

proof fn flat_grows(v: Seq<Seq<char>>, c: char)
    ensures
        v.len() > 0 ==> flat(longer(v, c)) == flat(v).push(c),
        flat(v.push(seq![c])) == flat(v).push(c),
{
    if v.len() > 0 {
        assert(longer(v, c).drop_last() =~= v.drop_last());
        assert(flat(longer(v, c)) =~= flat(v).push(c));
    }
    assert(v.push(seq![c]).drop_last() =~= v);
    assert(flat(v.push(seq![c])) =~= flat(v).push(c));
}

proof fn flat_adds(a: Seq<Seq<char>>, b: Seq<Seq<char>>)
    ensures
        flat(a + b) == flat(a) + flat(b),
    decreases b.len(),
{
    if b.len() == 0 {
        assert(a + b =~= a);
        assert(flat(a) + flat(b) =~= flat(a));
    } else {
        flat_adds(a, b.drop_last());
        assert((a + b).drop_last() =~= a + b.drop_last());
        assert(flat(a + b) =~= flat(a) + flat(b));
    }
}

proof fn words_show_everything(s: Seq<char>)
    ensures
        flat(words(s)) == s.filter(solid()),
    decreases s.len(),
{
    if s.len() == 0 {
        assert(s =~= Seq::empty());
        lists::filter_empty(solid());
        assert(flat(words(s)) =~= Seq::empty());
    } else {
        let t = s.drop_last();
        words_show_everything(t);
        assert(s =~= t.push(s.last()));
        lists::filter_push(t, s.last(), solid());
        flat_grows(words(t), s.last());
        if s.len() > 1 && !text::white(s[s.len() - 2]) {
            assert(t.last() == s[s.len() - 2]);
            words_are_there(t);
        }
    }
}

proof fn pieces_make_the_word(word: Seq<char>)
    ensures
        flat(pieces(word)) == word,
    decreases word.len(),
{
    if word.len() == 0 {
        assert(flat(pieces(word)) =~= word);
    } else {
        pieces_make_the_word(word.drop_last());
        flat_grows(pieces(word.drop_last()), word.last());
        assert(word.drop_last().push(word.last()) =~= word);
    }
}

proof fn all_pieces_make_the_words(ws: Seq<Seq<char>>)
    ensures
        flat(all_pieces(ws)) == flat(ws),
    decreases ws.len(),
{
    if ws.len() > 0 {
        all_pieces_make_the_words(ws.drop_last());
        pieces_make_the_word(ws.last());
        flat_adds(all_pieces(ws.drop_last()), pieces(ws.last()));
    }
}

proof fn filling_shows_everything(ps: Seq<Seq<char>>)
    ensures
        flat(filled(ps)).filter(solid()) == flat(ps).filter(solid()),
    decreases ps.len(),
{
    let f = solid();
    if ps.len() > 0 {
        let p = ps.last();
        let before = filled(ps.drop_last());
        filling_shows_everything(ps.drop_last());
        Seq::filter_distributes_over_add(flat(ps.drop_last()), p, f);
        if before.len() > 0 && width(before.last()) + 1 + width(p) <= WRAP_COLUMNS {
            let now = filled(ps);
            let line = before.last() + seq![' '] + p;
            assert(now.drop_last() =~= before.drop_last());
            assert(flat(now) =~= flat(before).push(' ') + p);
            Seq::filter_distributes_over_add(flat(before).push(' '), p, f);
            lists::filter_push(flat(before), ' ', f);
        } else {
            assert(filled(ps).drop_last() =~= before);
            Seq::filter_distributes_over_add(flat(before), p, f);
        }
    }
}

proof fn joining_shows_everything(v: Seq<Seq<char>>)
    ensures
        text::join(v, seq!['\n']).filter(solid()) == flat(v).filter(solid()),
    decreases v.len(),
{
    let f = solid();
    if v.len() == 0 {
        assert(flat(v) =~= text::join(v, seq!['\n']));
    } else if v.len() == 1 {
        assert(v.drop_last() =~= Seq::empty());
        assert(flat(v.drop_last()) =~= Seq::empty());
        assert(flat(v) =~= v[0]);
    } else {
        let before = text::join(v.drop_last(), seq!['\n']);
        joining_shows_everything(v.drop_last());
        assert(text::join(v, seq!['\n']) =~= before.push('\n') + v.last());
        Seq::filter_distributes_over_add(before.push('\n'), v.last(), f);
        lists::filter_push(before, '\n', f);
        Seq::filter_distributes_over_add(flat(v.drop_last()), v.last(), f);
    }
}

/// Nothing that shows is lost or moved, even where a word had to be split: leaving the
/// white space out, the wrapped text is the text.
pub proof fn law_no_character_is_lost(s: Seq<char>)
    ensures
        wrapped(s).filter(solid()) == s.filter(solid()),
{
    let ps = all_pieces(words(s));
    joining_shows_everything(lines(s));
    filling_shows_everything(ps);
    all_pieces_make_the_words(words(s));
    words_show_everything(s);
    assert(s.filter(solid()).filter(solid()) =~= s.filter(solid())) by {
        filter_twice(s);
    }
}

proof fn filter_twice(s: Seq<char>)
    ensures
        s.filter(solid()).filter(solid()) == s.filter(solid()),
    decreases s.len(),
{
    let f = solid();
    if s.len() == 0 {
        assert(s =~= Seq::empty());
        lists::filter_empty(f);
    } else {
        let t = s.drop_last();
        filter_twice(t);
        assert(s =~= t.push(s.last()));
        lists::filter_push(t, s.last(), f);
        lists::filter_push(t.filter(f), s.last(), f);
    }
}

/// Nothing but the breaks changes: where every word fits a line, the words of the
/// wrapped text are those of the text.
pub proof fn law_only_the_breaks_change(s: Seq<char>)
    requires
        forall|i: int| 0 <= i < words(s).len() ==> width(#[trigger] words(s)[i]) <= WRAP_COLUMNS,
    ensures
        words(wrapped(s)) == words(s),
{
    let ws = words(s);
    words_are_solid(s);
    assert forall|i: int| 0 <= i < ws.len() implies words(#[trigger] ws[i]) == seq![ws[i]] by {
        assert forall|k: int| 0 <= k < ws[i].len() implies !text::white(#[trigger] ws[i][k]) by {
            assert(!text::white(words(s)[i][k]));
        }
        a_word_is_itself(ws[i]);
    }
    assert forall|i: int| 0 <= i < ws.len() implies (#[trigger] ws[i]).len() > 0 && width(ws[i])
        <= WRAP_COLUMNS by {
        assert(width(words(s)[i]) <= WRAP_COLUMNS);
    }
    short_words_are_whole(ws);
    filling_keeps_words(ws);
    joining_keeps_words(lines(s));
}

/// A piece of a word that fits a line: nothing in it is white space.
pub open spec fn is_piece(p: Seq<char>) -> bool {
    &&& 0 < p.len()
    &&& 0 < width(p) <= WRAP_COLUMNS
    &&& forall|k: int| 0 <= k < p.len() ==> !text::white(#[trigger] p[k])
}

/// No white space comes of cutting a word.
proof fn pieces_are_solid(word: Seq<char>)
    requires
        forall|k: int| 0 <= k < word.len() ==> !text::white(#[trigger] word[k]),
    ensures
        forall|i: int| 0 <= i < pieces(word).len() ==> is_piece(#[trigger] pieces(word)[i]),
    decreases word.len(),
{
    if word.len() > 0 {
        let front = word.drop_last();
        let c = word[word.len() - 1];
        assert forall|k: int| 0 <= k < front.len() implies !text::white(#[trigger] front[k]) by {
            assert(front[k] == word[k]);
        }
        pieces_are_solid(front);
        pieces_fit(word);
        let before = pieces(front);
        let now = pieces(word);
        assert forall|i: int| 0 <= i < now.len() implies is_piece(#[trigger] now[i]) by {
            if i < now.len() - 1 {
                assert(now[i] == before[i]);
            } else if now.len() == before.len() {
                let was = before[before.len() - 1];
                assert(is_piece(was));
                assert(now[i] == was.push(c));
            } else {
                assert(now[i] == seq![c]);
            }
        }
    }
}

/// The pieces of a text's words, as they are filled into lines.
proof fn text_is_cut_into_pieces(ws: Seq<Seq<char>>)
    requires
        forall|i: int, k: int|
            0 <= i < ws.len() && 0 <= k < ws[i].len() ==> !text::white(#[trigger] ws[i][k]),
    ensures
        forall|i: int| 0 <= i < all_pieces(ws).len() ==> is_piece(#[trigger] all_pieces(ws)[i]),
    decreases ws.len(),
{
    if ws.len() > 0 {
        let front = ws.drop_last();
        let last = ws[ws.len() - 1];
        assert forall|i: int, k: int|
            0 <= i < front.len() && 0 <= k < front[i].len() implies !text::white(
            #[trigger] front[i][k],
        ) by {
            assert(front[i] == ws[i]);
            assert(!text::white(ws[i][k]));
        }
        text_is_cut_into_pieces(front);
        assert forall|k: int| 0 <= k < last.len() implies !text::white(#[trigger] last[k]) by {
            assert(!text::white(ws[ws.len() - 1][k]));
        }
        pieces_are_solid(last);
        let a = all_pieces(front);
        let b = pieces(last);
        assert forall|i: int| 0 <= i < (a + b).len() implies is_piece(#[trigger] (a + b)[i]) by {
            if i < a.len() {
                assert((a + b)[i] == a[i]);
            } else {
                assert((a + b)[i] == b[i - a.len()]);
            }
        }
    }
}

/// The words of a wrapped text are the pieces of the text's own.
proof fn wrapped_words(s: Seq<char>)
    ensures
        words(wrapped(s)) == all_pieces(words(s)),
        forall|i: int|
            0 <= i < all_pieces(words(s)).len() ==> is_piece(#[trigger] all_pieces(words(s))[i]),
{
    let ps = all_pieces(words(s));
    words_are_solid(s);
    text_is_cut_into_pieces(words(s));
    assert forall|i: int| 0 <= i < ps.len() implies words(#[trigger] ps[i]) == seq![ps[i]] by {
        assert(is_piece(ps[i]));
        a_word_is_itself(ps[i]);
    }
    filling_keeps_words(ps);
    joining_keeps_words(lines(s));
}

/// A line as a status item shows it: no space at either end, and none inside but those
/// between words.
pub open spec fn is_line(l: Seq<char>) -> bool {
    &&& 0 < l.len()
    &&& !text::white(l[0])
    &&& !text::white(l[l.len() - 1])
    &&& 0 < words(l).len()
    &&& forall|k: int| 0 <= k < l.len() && text::white(l[k]) ==> (#[trigger] l[k]) == ' '
}

/// Filled lines are lines, and each is broken only where the next word did not fit.
proof fn filling_makes_lines(ps: Seq<Seq<char>>)
    requires
        forall|i: int| 0 <= i < ps.len() ==> is_piece(#[trigger] ps[i]),
    ensures
        forall|i: int| 0 <= i < filled(ps).len() ==> is_line(#[trigger] filled(ps)[i]),
        forall|i: int, j: int|
            0 <= i && j == i + 1 && j < filled(ps).len() ==> width(#[trigger] filled(ps)[i]) + 1
                + width(words(#[trigger] filled(ps)[j])[0]) > WRAP_COLUMNS,
    decreases ps.len(),
{
    if ps.len() > 0 {
        let rest = ps.drop_last();
        let p = ps[ps.len() - 1];
        assert forall|i: int| 0 <= i < rest.len() implies is_piece(#[trigger] rest[i]) by {
            assert(rest[i] == ps[i]);
        }
        filling_makes_lines(rest);
        let before = filled(rest);
        let now = filled(ps);
        assert(is_piece(p));
        a_word_is_itself(p);
        if before.len() > 0 && width(before.last()) + 1 + width(p) <= WRAP_COLUMNS {
            let n = before.len() - 1;
            let was = before[n];
            let l = was + seq![' '] + p;
            assert(is_line(was));
            words_part(was, ' ', p);
            assert(words(l)[0] == words(was)[0]);
            assert(l[0] == was[0]);
            assert(l[l.len() - 1] == p[p.len() - 1]);
            assert forall|k: int| 0 <= k < l.len() && text::white(l[k]) implies (#[trigger] l[k])
                == ' ' by {
                if k < was.len() {
                    assert(l[k] == was[k]);
                } else if k > was.len() {
                    assert(l[k] == p[k - was.len() - 1]);
                }
            }
            assert(is_line(l));
            assert(now =~= before.update(n, l));
            assert forall|i: int| 0 <= i < now.len() implies is_line(#[trigger] now[i]) by {
                if i < n {
                    assert(now[i] == before[i]);
                }
            }
            assert forall|i: int, j: int| 0 <= i && j == i + 1 && j < now.len() implies width(
                #[trigger] now[i],
            ) + 1 + width(words(#[trigger] now[j])[0]) > WRAP_COLUMNS by {
                assert(now[i] == before[i]);
                assert(words(now[j])[0] == words(before[j])[0]);
            }
        } else {
            assert(words(p)[0] == p);
            assert(is_line(p));
            assert(now =~= before.push(p));
            assert forall|i: int| 0 <= i < now.len() implies is_line(#[trigger] now[i]) by {
                if i < before.len() {
                    assert(now[i] == before[i]);
                }
            }
            assert forall|i: int, j: int| 0 <= i && j == i + 1 && j < now.len() implies width(
                #[trigger] now[i],
            ) + 1 + width(words(#[trigger] now[j])[0]) > WRAP_COLUMNS by {
                assert(now[i] == before[i]);
                if j < before.len() {
                    assert(now[j] == before[j]);
                }
            }
        }
    }
}

/// A wrapped text is its lines with a break between each two, and no line holds a break of
/// its own or a space at either end.
pub proof fn law_lines_are_clean(s: Seq<char>, i: int)
    requires
        0 <= i < lines(s).len(),
    ensures
        wrapped(s) == text::join(lines(s), seq!['\n']),
        is_line(lines(s)[i]),
        forall|k: int| 0 <= k < lines(s)[i].len() ==> (#[trigger] lines(s)[i][k]) != '\n',
{
    wrapped_words(s);
    filling_makes_lines(all_pieces(words(s)));
    assert(is_line(lines(s)[i]));
    assert(text::white('\n'));
}

/// No break is needless: a line ends only where the first word of the next one would not
/// have fitted on it.
pub proof fn law_no_break_is_needless(s: Seq<char>, i: int)
    requires
        0 <= i < lines(s).len() - 1,
    ensures
        words(lines(s)[i + 1]).len() > 0,
        width(lines(s)[i]) + 1 + width(words(lines(s)[i + 1])[0]) > WRAP_COLUMNS,
{
    wrapped_words(s);
    filling_makes_lines(all_pieces(words(s)));
    assert(is_line(lines(s)[i + 1]));
    assert(width(filled(all_pieces(words(s)))[i]) + 1 + width(
        words(filled(all_pieces(words(s)))[i + 1])[0],
    ) > WRAP_COLUMNS);
}

/// A word that fits a line stays whole, whatever stands around it.
pub proof fn law_a_word_that_fits_stays_whole(s: Seq<char>, i: int)
    requires
        0 <= i < words(s).len(),
        width(words(s)[i]) <= WRAP_COLUMNS,
    ensures
        words(wrapped(s)).contains(words(s)[i]),
{
    wrapped_words(s);
    words_are_solid(s);
    assert(words(s)[i].len() > 0);
    a_short_word_is_whole(words(s)[i]);
    pieces_are_among_all(words(s), i, 0);
}

/// The pieces of a word are among those of all.
proof fn pieces_are_among_all(ws: Seq<Seq<char>>, i: int, k: int)
    requires
        0 <= i < ws.len(),
        0 <= k < pieces(ws[i]).len(),
    ensures
        all_pieces(ws).contains(pieces(ws[i])[k]),
    decreases ws.len(),
{
    let a = all_pieces(ws.drop_last());
    let b = pieces(ws.last());
    if i == ws.len() - 1 {
        assert((a + b)[a.len() + k] == b[k]);
    } else {
        assert(ws.drop_last()[i] == ws[i]);
        pieces_are_among_all(ws.drop_last(), i, k);
        let at = choose|n: int| 0 <= n < a.len() && a[n] == pieces(ws[i])[k];
        assert((a + b)[at] == a[at]);
    }
}

/// Wrapping a wrapped text changes nothing.
pub proof fn law_wrapping_twice_is_wrapping_once(s: Seq<char>)
    ensures
        wrapped(wrapped(s)) == wrapped(s),
{
    let ps = all_pieces(words(s));
    wrapped_words(s);
    assert forall|i: int| 0 <= i < ps.len() implies (#[trigger] ps[i]).len() > 0 && width(ps[i])
        <= WRAP_COLUMNS by {
        assert(is_piece(ps[i]));
    }
    short_words_are_whole(ps);
}

/// Nothing comes of a text without a word in it.
pub proof fn law_a_blank_text_wraps_to_nothing(s: Seq<char>)
    requires
        forall|k: int| 0 <= k < s.len() ==> text::white(#[trigger] s[k]),
    ensures
        wrapped(s) == Seq::<char>::empty(),
{
    blank_has_no_words(s);
    assert(all_pieces(words(s)) =~= Seq::empty());
    assert(lines(s) =~= Seq::empty());
}

proof fn blank_has_no_words(s: Seq<char>)
    requires
        forall|k: int| 0 <= k < s.len() ==> text::white(#[trigger] s[k]),
    ensures
        words(s) == Seq::<Seq<char>>::empty(),
    decreases s.len(),
{
    if s.len() > 0 {
        assert(text::white(s[s.len() - 1]));
        assert forall|k: int| 0 <= k < s.drop_last().len() implies text::white(
            #[trigger] s.drop_last()[k],
        ) by {
            assert(s.drop_last()[k] == s[k]);
        }
        blank_has_no_words(s.drop_last());
    }
}

/// Lines are 56 columns: a letter takes one and a wide character two.
pub proof fn law_what_a_column_is(s: Seq<char>, c: char)
    ensures
        width(s.push(c)) == width(s) + width_of(c),
        width(Seq::empty()) == 0,
        (c as u32) < 0x1100 ==> width_of(c) == 1,
        0x4e00 <= c as u32 <= 0x9fff ==> width_of(c) == 2,
        0xac00 <= c as u32 <= 0xd7a3 ==> width_of(c) == 2,
        0x3040 <= c as u32 <= 0x30ff ==> width_of(c) == 2,
        0x2_0000 <= c as u32 <= 0x3_fffd ==> width_of(c) == 2,
        1 <= width_of(c) <= 2,
        WRAP_COLUMNS == 56,
{
    assert(s.push(c).drop_last() =~= s);
}

} // verus!
