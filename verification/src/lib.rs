//! The KerBridge client: everything it takes to turn a cloud identity into a usable
//! on-prem Kerberos ticket, decided and proved.
//!
//! ```text
//!  discovery ─► agent::signin ─► broker ─► krbcred         (the sign-in pipeline)
//!                    device ─┘                             (the same, without a browser)
//!  config · enroll · elevate                               (host state and plumbing)
//!  agent · describe · icon · sentence                      (what a background agent is)
//!  windows · macos · cli                                   (what each surface decides)
//! ```
//!
//! This crate decides; it reads no file and opens no socket. What a step needs from
//! the network or the operating system it is handed as a value, and what it wants
//! done it returns.

pub mod address;
pub mod agent;
pub mod broker;
pub mod cachefile;
pub mod cli;
pub mod config;
pub mod der;
pub mod describe;
pub mod device;
pub mod discovery;
pub mod elevate;
pub mod encode;
pub mod enroll;
pub mod errors;
pub mod http;
pub mod icon;
pub mod json;
pub mod krbcred;
pub mod lists;
pub mod macos;
pub mod sentence;
pub mod text;
pub mod windows;
pub mod words;

use text::{cut, has_char};
use vstd::prelude::*;
use vstd::string::*;

verus! {

/// Where a surface's *Help* goes when the deployment publishes no page of its own.
/// One address, because two agents pointing at different pages is one of them wrong.
pub const HELP_URL: &'static str = "https://help.kerbridge.org";

/// An address without its fragment.
pub open spec fn page_part(base: Seq<char>) -> Seq<char> {
    base.take(text::first_of(base, '#'))
}

/// An address's fragment, which may be empty.
pub open spec fn fragment_part(base: Seq<char>) -> Seq<char> {
    if text::first_of(base, '#') < base.len() {
        base.skip(text::first_of(base, '#') + 1)
    } else {
        Seq::empty()
    }
}

/// The page with the parameters that say what to serve.
pub open spec fn with_parameters(page: Seq<char>, os: Seq<char>, lang: Seq<char>) -> Seq<char> {
    page + (if page.contains('?') {
        "&"@
    } else {
        "?"@
    }) + "lang="@ + lang + "&os="@ + os
}

/// The help address to open.
pub open spec fn help_address(base: Seq<char>, os: Seq<char>, lang: Seq<char>) -> Seq<char> {
    with_parameters(page_part(base), os, lang) + (if fragment_part(base).len() == 0 {
        Seq::empty()
    } else {
        "#"@ + fragment_part(base)
    })
}

/// The help address to actually open: the page told which language to serve and which
/// platform's half to show, since one page documents both and the reader should not
/// have to pick what the agent already knows.
///
/// Query parameters and nothing else, so this is safe on the *deployment's* own page
/// too -- a page that does not know them ignores them, where an appended path would
/// not be found. `base` may already carry a query.
pub fn help_url_for(base: &str, os: &str, lang: &str) -> (r: String)
    ensures
        r@ == help_address(base@, os@, lang@),
{
    let (page, fragment) = cut(base, '#');
    let mut url = page.clone();
    if has_char(page.as_str(), '?') {
        url.append("&");
    } else {
        url.append("?");
    }
    url.append("lang=");
    url.append(lang);
    url.append("&os=");
    url.append(os);
    if let Some(f) = &fragment {
        if !f.as_str().is_empty() {
            url.append("#");
            url.append(f.as_str());
        }
    }
    assert(url@ =~= help_address(base@, os@, lang@));
    url
}

/// A fragment stays at the end, where it swallows no parameter: what stands before
/// the first `#` of the address is the page and its parameters, and what stands after
/// it is the fragment of the page that was asked for.
pub proof fn law_a_fragment_stays_last(base: Seq<char>, os: Seq<char>, lang: Seq<char>)
    requires
        !os.contains('#'),
        !lang.contains('#'),
    ensures
        page_part(help_address(base, os, lang)) == with_parameters(page_part(base), os, lang),
        fragment_part(help_address(base, os, lang)) == fragment_part(base),
        page_part(base).is_prefix_of(help_address(base, os, lang)),
{
    let page = page_part(base);
    let whole = with_parameters(page, os, lang);
    let url = help_address(base, os, lang);
    text::first_is_first(base, '#');
    reveal_strlit("&");
    reveal_strlit("?");
    reveal_strlit("lang=");
    reveal_strlit("&os=");
    reveal_strlit("#");
    assert forall|i: int| 0 <= i < whole.len() implies whole[i] != '#' by {
        let a = page.len() as int;
        if i < a {
            assert(whole[i] == base[i]);
        } else if i < a + 6 {
        } else if i < a + 6 + lang.len() {
            assert(whole[i] == lang[i - a - 6]);
            assert(lang.contains(whole[i]));
        } else if i < a + 6 + lang.len() + 4 {
        } else {
            assert(whole[i] == os[i - a - 6 - lang.len() - 4]);
            assert(os.contains(whole[i]));
        }
    }
    text::first_is_first(url, '#');
    let at = text::first_of(url, '#');
    if fragment_part(base).len() == 0 {
        assert(url =~= whole);
        assert(at == url.len());
        assert(page_part(url) =~= whole);
        assert(fragment_part(base) =~= Seq::empty());
    } else {
        assert(url[whole.len() as int] == '#');
        assert forall|i: int| 0 <= i < whole.len() implies url[i] != '#' by {
            assert(url[i] == whole[i]);
        }
        assert(at == whole.len());
        assert(page_part(url) =~= whole);
        assert(fragment_part(url) =~= fragment_part(base));
    }
    assert(page.is_prefix_of(url)) by {
        assert(url.take(page.len() as int) =~= page);
    }
}

/// A page is asked in a language and for a system, behind what its address already asks.
pub proof fn law_what_a_page_is_asked(page: Seq<char>, os: Seq<char>, lang: Seq<char>)
    ensures
        !page.contains('?') ==> with_parameters(page, os, lang) == page + "?"@ + "lang="@ + lang
            + "&os="@ + os,
        page.contains('?') ==> with_parameters(page, os, lang) == page + "&"@ + "lang="@ + lang
            + "&os="@ + os,
        !page.contains('#') ==> help_address(page, os, lang) == with_parameters(page, os, lang),
{
    text::first_is_first(page, '#');
    if !page.contains('#') {
        assert(text::first_of(page, '#') == page.len());
        assert(page.take(page.len() as int) =~= page);
        assert(with_parameters(page, os, lang) + Seq::<char>::empty() =~= with_parameters(
            page,
            os,
            lang,
        ));
    }
}

} // verus!
