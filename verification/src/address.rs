//! URLs, as far as anything is decided on them.

use crate::errors;
use crate::errors::Chain;
use crate::text;
use crate::text::{joined, same, trim_end_char};
use vstd::prelude::*;
use vstd::string::*;

verus! {

/// The parts of a URL that decisions are taken on.
pub struct Address {
    /// The URL itself, normalized.
    pub href: String,
    pub scheme: String,
    pub host: Option<String>,
    pub path: String,
    /// The segments of the path, where it has any.
    pub segments: Option<Vec<String>>,
}

#[verifier::ext_equal]
pub struct AddressModel {
    pub href: Seq<char>,
    pub scheme: Seq<char>,
    pub host: Option<Seq<char>>,
    pub path: Seq<char>,
    pub segments: Option<Seq<Seq<char>>>,
}

impl View for Address {
    type V = AddressModel;

    open spec fn view(&self) -> AddressModel {
        AddressModel {
            href: self.href@,
            scheme: self.scheme@,
            host: text::opt_text(self.host),
            path: self.path@,
            segments: match self.segments {
                Some(v) => Some(text::texts(v@)),
                None => None,
            },
        }
    }
}

/// Who a URL speaks for: its scheme, host and port.
pub struct Origin {
    pub scheme: String,
    pub host: String,
    pub port: u16,
    /// The three of them as text.
    pub text: String,
}

#[verifier::ext_equal]
pub struct OriginModel {
    pub scheme: Seq<char>,
    pub host: Seq<char>,
    pub port: u16,
    pub text: Seq<char>,
}

impl View for Origin {
    type V = OriginModel;

    open spec fn view(&self) -> OriginModel {
        OriginModel {
            scheme: self.scheme@,
            host: self.host@,
            port: self.port,
            text: self.text@,
        }
    }
}

pub open spec fn origin_view(o: Option<Origin>) -> Option<OriginModel> {
    match o {
        Some(o) => Some(o@),
        None => None,
    }
}

/// What `url::Url::parse` makes of a text: the parts of the URL, or what its error
/// says.
pub uninterp spec fn url_parse(text: Seq<char>) -> Result<AddressModel, Seq<char>>;

/// What `url::Url::join` makes of a reference against the URL in `base`: the parts
/// of the result, or what the error says.
pub uninterp spec fn url_join(base: Seq<char>, reference: Seq<char>) -> Result<
    AddressModel,
    Seq<char>,
>;

/// What `url::Url::origin` makes of the URL in a text that is no `blob:` URL. `None` is
/// an opaque origin, which is like no other.
pub uninterp spec fn url_origin(text: Seq<char>) -> Option<OriginModel>;

/// The parts behind a result, or the text of its error.
pub open spec fn outcome(r: Result<Address, String>) -> Result<AddressModel, Seq<char>> {
    match r {
        Ok(a) => Ok(a@),
        Err(e) => Err(e@),
    }
}

/// `url::Url::parse`, and `as_str`, `scheme`, `host_str`, `path` and `path_segments` on
/// what it returns. All of them depend on the text alone.
#[verifier::external_body]
pub(crate) fn parse(text: &str) -> (r: Result<Address, String>)
    ensures
        outcome(r) == url_parse(text@),
{
    let u = url::Url::parse(text).map_err(|e| e.to_string())?;
    Ok(
        Address {
            href: u.as_str().to_owned(),
            scheme: u.scheme().to_owned(),
            host: u.host_str().map(str::to_owned),
            path: u.path().to_owned(),
            segments: u.path_segments().map(|s| s.map(str::to_owned).collect()),
        },
    )
}

/// `url::Url::join` on the URL in `base`, and the same parts of what it returns.
/// They depend on the two texts alone.
#[verifier::external_body]
pub(crate) fn join(base: &str, reference: &str) -> (r: Result<Address, String>)
    ensures
        outcome(r) == url_join(base@, reference@),
{
    let u = url::Url::parse(base).and_then(|b| b.join(reference)).map_err(|e| e.to_string())?;
    Ok(
        Address {
            href: u.as_str().to_owned(),
            scheme: u.scheme().to_owned(),
            host: u.host_str().map(str::to_owned),
            path: u.path().to_owned(),
            segments: u.path_segments().map(|s| s.map(str::to_owned).collect()),
        },
    )
}

/// `url::Url::origin` on the URL in `text`, and `ascii_serialization` of it. They depend
/// on the text alone; of an opaque origin, which is new on every call, only that it is
/// one is kept.
///
/// Not for a `blob:` URL: the call goes one level of the stack deeper for each URL
/// nested in the path, and there is no bound on how many there are.
#[verifier::external_body]
fn own_origin(text: &str) -> (r: Option<Origin>)
    requires
        url_parse(text@) matches Ok(a) && a.scheme != "blob"@,
    ensures
        origin_view(r) == url_origin(text@),
{
    let origin = url::Url::parse(text).ok()?.origin();
    let text = origin.ascii_serialization();
    match origin {
        url::Origin::Tuple(scheme, host, port) => Some(
            Origin { scheme, host: host.to_string(), port, text },
        ),
        url::Origin::Opaque(_) => None,
    }
}

/// Whether `url` is a URL whose scheme is `https`.
pub open spec fn is_https(url: Seq<char>) -> bool {
    url_parse(url) matches Ok(a) && a.scheme == "https"@
}

/// What is said of a URL that is not trusted.
pub open spec fn https_refusal(url: Seq<char>) -> Seq<char> {
    match url_parse(url) {
        Err(e) => "not a URL: `"@ + url + "` ("@ + e + ")"@,
        Ok(_) => "must be https:// (refusing to trust `"@ + url + "` over plaintext)"@,
    }
}

/// Reject anything that is not an `https://` URL, given what parsing made of it.
///
/// Parsed rather than prefix-matched: a scheme is a parsed property and
/// `starts_with` only looks like one, in both directions.
pub fn require_https_of(url: &str, parsed: &Result<Address, String>) -> (r: Result<(), Chain>)
    ensures
        r is Ok <==> (parsed matches Ok(a) && a@.scheme == "https"@),
        r matches Err(e) ==> e@ == errors::saying(
            match *parsed {
                Err(why) => "not a URL: `"@ + url@ + "` ("@ + why@ + ")"@,
                Ok(_) => "must be https:// (refusing to trust `"@ + url@ + "` over plaintext)"@,
            },
        ),
{
    match parsed {
        Err(e) => {
            let a = joined("not a URL: `", url);
            let b = joined(a.as_str(), "` (");
            let c = joined(b.as_str(), e.as_str());
            Err(Chain::new(joined(c.as_str(), ")")))
        },
        Ok(a) => {
            if same(a.scheme.as_str(), "https") {
                Ok(())
            } else {
                let m = joined("must be https:// (refusing to trust `", url);
                Err(Chain::new(joined(m.as_str(), "` over plaintext)")))
            }
        },
    }
}

/// Reject anything that is not an `https://` URL.
///
/// Called on the broker URL before every request, and on every URL the broker or
/// the IdP hands back -- the caller's context names which one.
pub fn require_https(url: &str) -> (r: Result<(), Chain>)
    ensures
        r is Ok <==> is_https(url@),
        r matches Err(e) ==> e@ == errors::saying(https_refusal(url@)),
{
    let parsed = parse(url);
    require_https_of(url, &parsed)
}

/// The last segment that is not empty.
pub open spec fn last_segment(segments: Seq<Seq<char>>) -> Seq<char>
    decreases segments.len(),
{
    if segments.len() == 0 {
        Seq::empty()
    } else if segments.last().len() > 0 {
        segments.last()
    } else {
        last_segment(segments.drop_last())
    }
}

/// Which source the parts of a URL name.
pub open spec fn source_of(parsed: Result<AddressModel, Seq<char>>) -> Seq<char> {
    match parsed {
        Ok(a) => match a.segments {
            Some(s) => last_segment(s),
            None => Seq::empty(),
        },
        Err(_) => Seq::empty(),
    }
}

/// Which source an address names, given what parsing made of it.
pub fn source_name_of(parsed: &Result<Address, String>) -> (r: String)
    ensures
        r@ == source_of(outcome(*parsed)),
{
    if let Ok(a) = parsed {
        if let Some(v) = &a.segments {
            let ghost all = text::texts(v@);
            let mut n: usize = v.len();
            assert(all.take(n as int) =~= all);
            while n > 0
                invariant
                    n <= v@.len(),
                    all == text::texts(v@),
                    source_of(outcome(*parsed)) == last_segment(all),
                    last_segment(all.take(n as int)) == last_segment(all),
                decreases n,
            {
                let s = &v[n - 1];
                assert(all.take(n as int).last() == s@);
                if !s.as_str().is_empty() {
                    return s.clone();
                }
                assert(all.take(n as int).drop_last() =~= all.take(n - 1));
                n = n - 1;
            }
        }
    }
    String::new()
}

/// Which source a base URL names: its last path segment.
///
/// Empty where the base carries no segment -- a broker predating source routing,
/// which names one source and does not say which.
pub fn source_name(base_url: &str) -> (r: String)
    ensures
        r@ == source_of(url_parse(base_url@)),
{
    let parsed = parse(base_url);
    source_name_of(&parsed)
}

/// The host in the parts of a URL, or the whole URL where there is none.
pub open spec fn host_in(url: Seq<char>, parsed: Result<AddressModel, Seq<char>>) -> Seq<char> {
    match parsed {
        Ok(a) => match a.host {
            Some(h) => h,
            None => url,
        },
        Err(_) => url,
    }
}

/// The host part of a URL, given what parsing made of it.
pub fn host_in_parsed(url: &str, parsed: &Result<Address, String>) -> (r: String)
    ensures
        r@ == host_in(url@, outcome(*parsed)),
{
    if let Ok(a) = parsed {
        if let Some(h) = &a.host {
            return h.clone();
        }
    }
    url.to_owned()
}

/// The host part of a URL, or the whole URL when it will not parse -- a failure
/// message with a mangled address in it still beats one with nothing.
pub fn host_of_url(url: &str) -> (r: String)
    ensures
        r@ == host_in(url@, url_parse(url@)),
{
    let parsed = parse(url);
    host_in_parsed(url, &parsed)
}

/// The origin of a URL that is at most `depth` levels of `blob:` deep. A `blob:` URL has
/// the origin of the URL in its path.
pub open spec fn origin_within(url: Seq<char>, depth: nat) -> Option<OriginModel>
    decreases depth,
{
    match url_parse(url) {
        Err(_) => None,
        Ok(a) => if a.scheme != "blob"@ {
            url_origin(url)
        } else if depth == 0 {
            None
        } else {
            origin_within(a.path, (depth - 1) as nat)
        },
    }
}

/// The origin of a URL, which nests no deeper than it is long.
pub open spec fn origin_of(url: Seq<char>) -> Option<OriginModel> {
    origin_within(url, url.len())
}

/// The origin of a URL: `None` for one that is like no other.
pub fn origin(url: &str) -> (r: Option<Origin>)
    ensures
        origin_view(r) == origin_of(url@),
{
    let mut at = url.to_owned();
    let mut depth: usize = url.unicode_len();
    loop
        invariant
            origin_within(at@, depth as nat) == origin_of(url@),
        decreases depth,
    {
        match parse(at.as_str()) {
            Err(_) => {
                return None;
            },
            Ok(a) => {
                if !same(a.scheme.as_str(), "blob") {
                    return own_origin(at.as_str());
                }
                if depth == 0 {
                    return None;
                }
                at = a.path;
                depth = depth - 1;
            },
        }
    }
}

/// One origin: one that is like no other is not even like itself.
pub open spec fn same_origin(a: Option<OriginModel>, b: Option<OriginModel>) -> bool {
    match (a, b) {
        (Some(a), Some(b)) => a.scheme == b.scheme && a.host == b.host && a.port == b.port,
        _ => false,
    }
}

pub fn shares_origin(a: &Option<Origin>, b: &Option<Origin>) -> (r: bool)
    ensures
        r == same_origin(origin_view(*a), origin_view(*b)),
{
    match (a, b) {
        (Some(a), Some(b)) => {
            same(a.scheme.as_str(), b.scheme.as_str()) && same(a.host.as_str(), b.host.as_str())
                && a.port == b.port
        },
        _ => false,
    }
}

/// How an origin is written; one that is like no other is `null`.
pub open spec fn origin_text(o: Option<OriginModel>) -> Seq<char> {
    match o {
        Some(o) => o.text,
        None => "null"@,
    }
}

/// A URL without the slashes at its end.
pub fn without_slash(url: &str) -> (r: String)
    ensures
        r@ == text::without_trailing(url@, '/'),
{
    trim_end_char(url, '/')
}

// ------------------------------------------------------------------------ laws

/// The source that an address names is its last segment that says anything, whatever
/// slashes follow; an address without one names none.
pub proof fn law_a_source_is_the_last_segment(front: Seq<Seq<char>>, name: Seq<char>)
    ensures
        name.len() > 0 ==> last_segment(front.push(name)) == name,
        last_segment(front.push(Seq::empty())) == last_segment(front),
        last_segment(Seq::empty()) == Seq::<char>::empty(),
{
    assert(front.push(name).drop_last() =~= front);
    assert(front.push(Seq::empty()).drop_last() =~= front);
}

/// Origins are the same where scheme, host and port are; an opaque one is the same as none,
/// itself included.
pub proof fn law_when_origins_are_the_same(a: OriginModel, b: OriginModel)
    ensures
        same_origin(Some(a), Some(b)) <==> a.scheme == b.scheme && a.host == b.host && a.port
            == b.port,
        !same_origin(None, Some(b)),
        !same_origin(Some(a), None),
        !same_origin(None, None),
        origin_text(Some(a)) == a.text,
        origin_text(None) == "null"@,
{
}

/// What is read from an address that is one, and what stands in for an address that is not.
pub proof fn law_what_an_address_says(
    url: Seq<char>,
    a: AddressModel,
    e: Seq<char>,
    host: Seq<char>,
    segments: Seq<Seq<char>>,
)
    ensures
        a.host == Some(host) ==> host_in(url, Ok(a)) == host,
        a.host is None ==> host_in(url, Ok(a)) == url,
        host_in(url, Err(e)) == url,
        a.segments == Some(segments) ==> source_of(Ok(a)) == last_segment(segments),
        a.segments is None ==> source_of(Ok(a)) == Seq::<char>::empty(),
        source_of(Err(e)) == Seq::<char>::empty(),
        is_https(url) ==> url_parse(url) is Ok && (url_parse(url)->Ok_0).scheme == "https"@,
        url_parse(url) matches Ok(p) ==> (p.scheme == "https"@ ==> is_https(url)),
{
}

/// An origin is that of the address, and of a blob the one of the address inside it; what is
/// no address has none.
pub proof fn law_whose_origin_it_is(url: Seq<char>, depth: nat, a: AddressModel)
    ensures
        url_parse(url) is Err ==> origin_within(url, depth) is None && origin_of(url) is None,
        url_parse(url) == Ok::<AddressModel, Seq<char>>(a) && a.scheme != "blob"@ ==> origin_within(
            url,
            depth,
        ) == url_origin(url) && origin_of(url) == url_origin(url),
        url_parse(url) == Ok::<AddressModel, Seq<char>>(a) && a.scheme == "blob"@ && depth > 0
            ==> origin_within(url, depth) == origin_within(a.path, (depth - 1) as nat),
        url_parse(url) matches Err(e) ==> https_refusal(url) == "not a URL: `"@ + url + "` ("@ + e
            + ")"@,
        url_parse(url) is Ok ==> https_refusal(url) == "must be https:// (refusing to trust `"@ + url
            + "` over plaintext)"@,
{
}

} // verus!
