//! An error as the chain of what led to it, outermost first.
//!
//! A surface needs two things of a failure: the whole story for the log, and
//! whether one of a few causes that have a sentence of their own stands anywhere
//! in it. So the causes that are told apart are typed here, and the rest is text.

use crate::text;
use crate::text::{join_all, joined};
use vstd::prelude::*;
use vstd::string::*;

verus! {

/// A request that died on a certificate nobody trusts.
///
/// Typed rather than recognized by its message, because the UI has to tell it
/// from an unreachable host somehow: "check your network, then retry" is actively
/// wrong advice about a host that answered, on time, with such a certificate.
pub struct Untrusted {
    /// Whose certificate was refused -- which is not always the broker. The one
    /// discovery call reaches the IdP too.
    pub host: String,
    pub detail: String,
}

#[verifier::ext_equal]
pub struct UntrustedModel {
    pub host: Seq<char>,
    pub detail: Seq<char>,
}

impl View for Untrusted {
    type V = UntrustedModel;

    open spec fn view(&self) -> UntrustedModel {
        UntrustedModel { host: self.host@, detail: self.detail@ }
    }
}

/// The broker names more than one source, and this address named none of them.
pub struct AmbiguousSource {
    pub sources: Vec<String>,
}

impl View for AmbiguousSource {
    type V = Seq<Seq<char>>;

    open spec fn view(&self) -> Seq<Seq<char>> {
        text::texts(self.sources@)
    }
}

/// What is said of an ambiguous address.
pub open spec fn ambiguous_text(sources: Seq<Seq<char>>) -> Seq<char> {
    "this broker serves several sources and the address names none of them ("@ + text::join(
        sources,
        ", "@,
    ) + "); the broker URL has to end in one of them"@
}

impl AmbiguousSource {
    pub fn message(&self) -> (r: String)
        ensures
            r@ == ambiguous_text(self@),
    {
        let list = join_all(&self.sources, ", ");
        let head = joined(
            "this broker serves several sources and the address names none of them (",
            list.as_str(),
        );
        joined(head.as_str(), "); the broker URL has to end in one of them")
    }
}

/// One link of the chain.
pub enum Cause {
    Said(String),
    Untrusted(Untrusted),
    Ambiguous(AmbiguousSource),
    /// The IdP answered and refused, and said who it is and why.
    Refused { issuer: String, reason: String, said: String },
    /// Nobody finished the browser sign-in.
    TimedOut { said: String },
}

#[verifier::ext_equal]
pub enum CauseModel {
    Said(Seq<char>),
    Untrusted(UntrustedModel),
    Ambiguous(Seq<Seq<char>>),
    Refused { issuer: Seq<char>, reason: Seq<char>, said: Seq<char> },
    TimedOut { said: Seq<char> },
}

impl View for Cause {
    type V = CauseModel;

    open spec fn view(&self) -> CauseModel {
        match *self {
            Cause::Said(s) => CauseModel::Said(s@),
            Cause::Untrusted(u) => CauseModel::Untrusted(u@),
            Cause::Ambiguous(a) => CauseModel::Ambiguous(a@),
            Cause::Refused { issuer, reason, said } => CauseModel::Refused {
                issuer: issuer@,
                reason: reason@,
                said: said@,
            },
            Cause::TimedOut { said } => CauseModel::TimedOut { said: said@ },
        }
    }
}

impl CauseModel {
    /// What this link says.
    pub open spec fn says(self) -> Seq<char> {
        match self {
            CauseModel::Said(s) => s,
            CauseModel::Untrusted(u) => u.detail,
            CauseModel::Ambiguous(sources) => ambiguous_text(sources),
            CauseModel::Refused { said, .. } => said,
            CauseModel::TimedOut { said } => said,
        }
    }
}

impl Cause {
    pub fn message(&self) -> (r: String)
        ensures
            r@ == self@.says(),
    {
        match self {
            Cause::Said(s) => s.clone(),
            Cause::Untrusted(u) => u.detail.clone(),
            Cause::Ambiguous(a) => a.message(),
            Cause::Refused { issuer: _, reason: _, said } => said.clone(),
            Cause::TimedOut { said } => said.clone(),
        }
    }
}

/// What went wrong and what led to it.
pub struct Chain {
    pub causes: Vec<Cause>,
}

/// The causes behind a vector of them.
pub open spec fn causes_of(v: Seq<Cause>) -> Seq<CauseModel> {
    Seq::new(v.len(), |i: int| v[i]@)
}

impl View for Chain {
    type V = Seq<CauseModel>;

    open spec fn view(&self) -> Seq<CauseModel> {
        causes_of(self.causes@)
    }
}

/// What each link says.
pub open spec fn said_by(c: Seq<CauseModel>) -> Seq<Seq<char>> {
    Seq::new(c.len(), |i: int| c[i].says())
}

/// The whole story on one line.
pub open spec fn story(c: Seq<CauseModel>) -> Seq<char> {
    text::join(said_by(c), ": "@)
}

/// An error that says one thing.
pub open spec fn saying(s: Seq<char>) -> Seq<CauseModel> {
    seq![CauseModel::Said(s)]
}

/// The same error with what was being done put in front.
pub open spec fn while_doing(s: Seq<char>, c: Seq<CauseModel>) -> Seq<CauseModel> {
    saying(s) + c
}

/// The host of the first refused certificate in the chain.
pub open spec fn first_untrusted(c: Seq<CauseModel>) -> Option<Seq<char>>
    decreases c.len(),
{
    if c.len() == 0 {
        None
    } else {
        match c[0] {
            CauseModel::Untrusted(u) => Some(u.host),
            _ => first_untrusted(c.drop_first()),
        }
    }
}

/// The sources of the first ambiguous address in the chain.
pub open spec fn first_ambiguous(c: Seq<CauseModel>) -> Option<Seq<Seq<char>>>
    decreases c.len(),
{
    if c.len() == 0 {
        None
    } else {
        match c[0] {
            CauseModel::Ambiguous(sources) => Some(sources),
            _ => first_ambiguous(c.drop_first()),
        }
    }
}

/// Who refused, and why, at the first refusal in the chain.
pub open spec fn first_refused(c: Seq<CauseModel>) -> Option<(Seq<char>, Seq<char>)>
    decreases c.len(),
{
    if c.len() == 0 {
        None
    } else {
        match c[0] {
            CauseModel::Refused { issuer, reason, .. } => Some((issuer, reason)),
            _ => first_refused(c.drop_first()),
        }
    }
}

/// Whether nobody finished the sign-in.
pub open spec fn timed_out(c: Seq<CauseModel>) -> bool {
    exists|i: int| 0 <= i < c.len() && (#[trigger] c[i]) is TimedOut
}

impl Chain {
    pub fn new(s: String) -> (r: Self)
        ensures
            r@ == saying(s@),
    {
        Self::of(Cause::Said(s))
    }

    pub fn of(cause: Cause) -> (r: Self)
        ensures
            r@ == seq![cause@],
    {
        let mut causes: Vec<Cause> = Vec::new();
        causes.push(cause);
        let r = Chain { causes };
        assert(r@ =~= seq![cause@]);
        r
    }

    /// With what was being done in front.
    pub fn context(self, s: &str) -> (r: Self)
        ensures
            r@ == while_doing(s@, self@),
    {
        let ghost was = self.causes@;
        let mut causes = self.causes;
        causes.insert(0, Cause::Said(s.to_owned()));
        let r = Chain { causes };
        assert(r@ =~= while_doing(s@, causes_of(was)));
        r
    }

    /// Every link, outermost first, as one line.
    pub fn message(&self) -> (r: String)
        ensures
            r@ == story(self@),
    {
        let mut parts: Vec<String> = Vec::new();
        let mut i: usize = 0;
        while i < self.causes.len()
            invariant
                i <= self.causes@.len(),
                parts@.len() == i,
                forall|k: int| 0 <= k < i ==> (#[trigger] parts@[k])@ == self@[k].says(),
            decreases self.causes@.len() - i,
        {
            parts.push(self.causes[i].message());
            i = i + 1;
        }
        assert(text::texts(parts@) =~= said_by(self@));
        join_all(&parts, ": ")
    }

    pub fn ambiguous(&self) -> (r: Option<&AmbiguousSource>)
        ensures
            first_ambiguous(self@) == match r {
                Some(a) => Some(a@),
                None => None,
            },
    {
        let mut i: usize = 0;
        assert(self@.skip(0) =~= self@);
        while i < self.causes.len()
            invariant
                i <= self.causes@.len(),
                first_ambiguous(self@.skip(i as int)) == first_ambiguous(self@),
            decreases self.causes@.len() - i,
        {
            assert(self@.skip(i as int)[0] == self.causes@[i as int]@);
            if let Cause::Ambiguous(a) = &self.causes[i] {
                return Some(a);
            }
            assert(self@.skip(i as int).drop_first() =~= self@.skip(i + 1));
            i = i + 1;
        }
        None
    }

    pub fn refused(&self) -> (r: Option<(&str, &str)>)
        ensures
            first_refused(self@) == match r {
                Some((issuer, reason)) => Some((issuer@, reason@)),
                None => None,
            },
    {
        let mut i: usize = 0;
        assert(self@.skip(0) =~= self@);
        while i < self.causes.len()
            invariant
                i <= self.causes@.len(),
                first_refused(self@.skip(i as int)) == first_refused(self@),
            decreases self.causes@.len() - i,
        {
            assert(self@.skip(i as int)[0] == self.causes@[i as int]@);
            if let Cause::Refused { issuer, reason, said: _ } = &self.causes[i] {
                return Some((issuer.as_str(), reason.as_str()));
            }
            assert(self@.skip(i as int).drop_first() =~= self@.skip(i + 1));
            i = i + 1;
        }
        None
    }

    pub fn timed_out(&self) -> (r: bool)
        ensures
            r == timed_out(self@),
    {
        let mut i: usize = 0;
        while i < self.causes.len()
            invariant
                i <= self.causes@.len(),
                forall|k: int| 0 <= k < i ==> !((#[trigger] self@[k]) is TimedOut),
            decreases self.causes@.len() - i,
        {
            if let Cause::TimedOut { said: _ } = &self.causes[i] {
                assert(self@[i as int] is TimedOut);
                return true;
            }
            i = i + 1;
        }
        false
    }
}

/// The host whose certificate was refused, if that is what failed anywhere in
/// this error's chain.
pub fn untrusted_host(e: &Chain) -> (r: Option<&str>)
    ensures
        text::opt_str(r) == first_untrusted(e@),
{
    let mut i: usize = 0;
    assert(e@.skip(0) =~= e@);
    while i < e.causes.len()
        invariant
            i <= e.causes@.len(),
            first_untrusted(e@.skip(i as int)) == first_untrusted(e@),
        decreases e.causes@.len() - i,
    {
        assert(e@.skip(i as int)[0] == e.causes@[i as int]@);
        if let Cause::Untrusted(u) = &e.causes[i] {
            return Some(u.host.as_str());
        }
        assert(e@.skip(i as int).drop_first() =~= e@.skip(i + 1));
        i = i + 1;
    }
    None
}

// ------------------------------------------------------------------------ laws

/// Saying what was being done hides no cause: whatever had a sentence of its own
/// still has it.
pub proof fn law_context_hides_no_cause(s: Seq<char>, c: Seq<CauseModel>)
    ensures
        first_untrusted(while_doing(s, c)) == first_untrusted(c),
        first_ambiguous(while_doing(s, c)) == first_ambiguous(c),
        first_refused(while_doing(s, c)) == first_refused(c),
        timed_out(while_doing(s, c)) == timed_out(c),
{
    let d = while_doing(s, c);
    assert(d.drop_first() =~= c);
    if timed_out(c) {
        let i = choose|i: int| 0 <= i < c.len() && (#[trigger] c[i]) is TimedOut;
        assert(d[i + 1] is TimedOut);
    }
    if timed_out(d) {
        let i = choose|i: int| 0 <= i < d.len() && (#[trigger] d[i]) is TimedOut;
        assert(c[i - 1] is TimedOut);
    }
}

/// The host that could not be trusted, the sources an address left open and the refusal are
/// each the first of their kind in the story, from the outside in, and there is none where
/// the story has none.
pub proof fn law_a_cause_is_the_first_of_its_kind(c: Seq<CauseModel>, i: int)
    requires
        0 <= i < c.len(),
    ensures
        c[i] matches CauseModel::Untrusted(u) && (forall|k: int|
            0 <= k < i ==> !((#[trigger] c[k]) is Untrusted)) ==> first_untrusted(c) == Some(
            (c[i]->Untrusted_0).host,
        ),
        c[i] is Ambiguous && (forall|k: int| 0 <= k < i ==> !((#[trigger] c[k]) is Ambiguous))
            ==> first_ambiguous(c) == Some(c[i]->Ambiguous_0),
        c[i] is Refused && (forall|k: int| 0 <= k < i ==> !((#[trigger] c[k]) is Refused))
            ==> first_refused(c) == Some((c[i]->issuer, c[i]->reason)),
    decreases c.len(),
{
    if i > 0 {
        let t = c.drop_first();
        assert(t[i - 1] == c[i]);
        law_a_cause_is_the_first_of_its_kind(t, i - 1);
        assert forall|k: int|
            #![trigger t[k]]
            0 <= k < i - 1 implies t[k] == c[k + 1] by {}
    }
}

/// Without a cause of that kind there is none to name.
pub proof fn law_an_absent_cause_is_not_named(c: Seq<CauseModel>)
    ensures
        (forall|k: int| 0 <= k < c.len() ==> !((#[trigger] c[k]) is Untrusted)) ==> first_untrusted(
            c,
        ) is None,
        (forall|k: int| 0 <= k < c.len() ==> !((#[trigger] c[k]) is Ambiguous)) ==> first_ambiguous(
            c,
        ) is None,
        (forall|k: int| 0 <= k < c.len() ==> !((#[trigger] c[k]) is Refused)) ==> first_refused(c)
            is None,
    decreases c.len(),
{
    if c.len() > 0 {
        let t = c.drop_first();
        law_an_absent_cause_is_not_named(t);
        assert forall|k: int| #![trigger t[k]] 0 <= k < t.len() implies t[k] == c[k + 1] by {}
        assert(c[0] == c[0]);
    }
}

/// The story is told from the outside in: what was being done, a colon, and why it failed.
pub proof fn law_a_story_is_told_from_the_outside_in(s: Seq<char>, t: Seq<char>)
    ensures
        story(saying(s)) == s,
        story(while_doing(s, saying(t))) == s + ": "@ + t,
{
    let one = saying(s);
    let two = while_doing(s, saying(t));
    text::law_parts_are_joined_in_order(Seq::empty(), s, t, ": "@);
    assert(said_by(one) =~= seq![s]);
    assert(said_by(two) =~= seq![s, t]);
}

/// What a cause says: its own words, and of an address that leaves a source open, every
/// source it could have named.
pub proof fn law_what_a_cause_says(
    s: Seq<char>,
    u: UntrustedModel,
    sources: Seq<Seq<char>>,
    issuer: Seq<char>,
    reason: Seq<char>,
)
    ensures
        CauseModel::Said(s).says() == s,
        CauseModel::Untrusted(u).says() == u.detail,
        CauseModel::Ambiguous(sources).says()
            == "this broker serves several sources and the address names none of them ("@
            + text::join(sources, ", "@) + "); the broker URL has to end in one of them"@,
        (CauseModel::Refused { issuer, reason, said: s }).says() == s,
        (CauseModel::TimedOut { said: s }).says() == s,
        timed_out(seq![CauseModel::TimedOut { said: s }]),
        !timed_out(seq![CauseModel::Said(s)]),
{
    let t = seq![CauseModel::TimedOut { said: s }];
    assert(t[0] is TimedOut);
}

} // verus!
