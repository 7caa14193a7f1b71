//! What a one-shot invocation asked for: the verb, the broker to run it against, and
//! where to leave the sentence the parent will read.
//!
//! Two binaries reach the same verbs and spell them differently: one takes the broker
//! positionally (`--enroll <url>`), the other as a flag (`--broker <url> --enroll`).
//! A spelling that matched nothing and fell through to starting a tray would be an
//! enrollment that silently did not happen, and looked like one that had. So either
//! is accepted, and an unrecognized flag is treated as the mistake it is.

use crate::encode;
use crate::encode::quoted;
use crate::text;
use crate::text::same;
use vstd::prelude::*;
use vstd::string::*;

verus! {

/// What the arguments come to: the verb, the broker and the result path, or why they
/// are refused.
pub type Parsed = Result<(Option<Seq<char>>, Seq<char>, Seq<char>), Seq<char>>;

/// A verb of the one-shots.
pub open spec fn is_verb(arg: Seq<char>) -> bool {
    arg == "--enroll"@ || arg == "--reenroll"@ || arg == "--unenroll"@ || arg == "--repair"@
}

/// An argument that is a flag.
pub open spec fn is_flag(arg: Seq<char>) -> bool {
    arg.len() > 0 && arg[0] == '-'
}

/// The argument at `i`, and nothing where there is none.
pub open spec fn argument(args: Seq<Seq<char>>, i: int) -> Seq<char> {
    if i < args.len() {
        args[i]
    } else {
        Seq::empty()
    }
}

/// The arguments from `i` on, read with what was found before them.
pub open spec fn reading(
    args: Seq<Seq<char>>,
    i: int,
    mode: Option<Seq<char>>,
    broker: Seq<char>,
    result: Seq<char>,
) -> Parsed
    decreases args.len() + 1 - i,
{
    if i >= args.len() {
        Ok((mode, broker, result))
    } else if is_verb(args[i]) {
        reading(args, i + 1, Some(args[i]), broker, result)
    } else if args[i] == "--broker"@ {
        reading(args, i + 2, mode, argument(args, i + 1), result)
    } else if args[i] == "--result"@ {
        reading(args, i + 2, mode, broker, argument(args, i + 1))
    } else if mode is Some && broker.len() == 0 && !is_flag(args[i]) {
        reading(args, i + 1, mode, args[i], result)
    } else {
        Err("unrecognized argument "@ + encode::quoted_text(args[i]))
    }
}

/// What the arguments ask for.
pub open spec fn asked(args: Seq<Seq<char>>) -> Parsed {
    reading(args, 0, None, Seq::empty(), Seq::empty())
}

fn verb(arg: &str) -> (r: bool)
    ensures
        r == is_verb(arg@),
{
    same(arg, "--enroll") || same(arg, "--reenroll") || same(arg, "--unenroll") || same(
        arg,
        "--repair",
    )
}

fn flag(arg: &str) -> (r: bool)
    ensures
        r == is_flag(arg@),
{
    let n: usize = arg.unicode_len();
    n > 0 && arg.get_char(0) == '-'
}

fn at(args: &Vec<String>, i: usize) -> (r: String)
    ensures
        r@ == argument(text::texts(args@), i as int),
{
    if i < args.len() {
        args[i].clone()
    } else {
        let none = String::new();
        assert(none@ =~= Seq::empty());
        none
    }
}

/// Past a flag and its value, which may be missing.
fn past(args: &Vec<String>, i: usize) -> (r: usize)
    requires
        i < args@.len(),
    ensures
        r == (if i + 2 <= args@.len() {
            i + 2
        } else {
            args@.len() as int
        }),
{
    if args.len() - i >= 2 {
        i + 2
    } else {
        args.len()
    }
}

/// The outcome as texts.
pub open spec fn outcome_of(r: Result<(Option<String>, String, String), String>) -> Parsed {
    match r {
        Ok((mode, broker, result)) => Ok((text::opt_text(mode), broker@, result@)),
        Err(e) => Err(e@),
    }
}

pub fn one_shot(args: &Vec<String>) -> (r: Result<(Option<String>, String, String), String>)
    ensures
        outcome_of(r) == asked(text::texts(args@)),
{
    let ghost all = text::texts(args@);
    let mut mode: Option<String> = None;
    let mut broker = String::new();
    let mut result = String::new();
    let mut i: usize = 0;
    proof {
        assert(broker@ =~= Seq::empty());
        assert(result@ =~= Seq::empty());
    }
    while i < args.len()
        invariant
            all == text::texts(args@),
            i <= args@.len(),
            asked(all) == reading(all, i as int, text::opt_text(mode), broker@, result@),
        decreases args@.len() - i,
    {
        let arg = args[i].as_str();
        proof {
            assert(all[i as int] == arg@);
            reveal_with_fuel(reading, 3);
        }
        if verb(arg) {
            mode = Some(arg.to_owned());
            i = i + 1;
        } else if same(arg, "--broker") {
            broker = at(args, i + 1);
            i = past(args, i);
        } else if same(arg, "--result") {
            result = at(args, i + 1);
            i = past(args, i);
        } else if mode.is_some() && broker.as_str().is_empty() && !flag(arg) {
            // The positional spelling, valid only after the verb.
            broker = arg.to_owned();
            i = i + 1;
        } else {
            let mut e = "unrecognized argument ".to_owned();
            let said = quoted(arg);
            e.append(said.as_str());
            return Err(e);
        }
    }
    Ok((mode, broker, result))
}

// ------------------------------------------------------------------------ laws

/// The words of the command line are told apart.
pub proof fn words_apart()
    ensures
        !is_verb("--broker"@),
        !is_verb("--result"@),
        "--broker"@ != "--result"@,
        is_flag("--broker"@),
        is_flag("--result"@),
        forall|v: Seq<char>| #[trigger] is_verb(v) ==> is_flag(v),
{
    reveal_strlit("--enroll");
    reveal_strlit("--reenroll");
    reveal_strlit("--unenroll");
    reveal_strlit("--repair");
    reveal_strlit("--broker");
    reveal_strlit("--result");
    assert("--broker"@[2] == 'b');
    assert("--result"@[2] == 'r' && "--result"@[3] == 'e' && "--result"@[4] == 's');
    assert("--reenroll"@[4] == 'e');
    assert("--repair"@[4] == 'p');
}

/// Both spellings of a verb ask for the same thing, whatever the broker is called.
pub proof fn law_both_spellings_are_one(v: Seq<char>, url: Seq<char>)
    requires
        is_verb(v),
        !is_flag(url),
    ensures
        asked(seq![v, url]) == asked(seq!["--broker"@, url, v]),
        asked(seq![v, url]) == Parsed::Ok((Some(v), url, Seq::empty())),
{
    words_apart();
    reveal_with_fuel(reading, 4);
    let a = seq![v, url];
    let b = seq!["--broker"@, url, v];
    if url.len() == 0 {
        assert(url =~= Seq::empty());
    }
    assert(asked(a) == Parsed::Ok((Some(v), url, Seq::empty())));
    assert(asked(b) == Parsed::Ok((Some(v), url, Seq::empty())));
}

/// An unknown flag is refused wherever it stands after what was understood: nothing
/// falls through to starting a tray.
pub proof fn law_an_unknown_flag_is_refused(
    args: Seq<Seq<char>>,
    i: int,
    mode: Option<Seq<char>>,
    broker: Seq<char>,
    result: Seq<char>,
)
    requires
        0 <= i < args.len(),
        is_flag(args[i]),
        !is_verb(args[i]),
        args[i] != "--broker"@,
        args[i] != "--result"@,
    ensures
        reading(args, i, mode, broker, result) is Err,
{
}

} // verus!
