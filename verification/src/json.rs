//! JSON documents as values the rest of the crate can read.
//!
//! The text is `serde_json`'s to parse and to write. What comes out of it, or
//! goes into it, is a tree of our own, so that every decision taken on a document
//! is taken on something a contract can speak of.

use crate::text;
use crate::text::same;
use vstd::prelude::*;
use vstd::string::*;

verus! {

/// A JSON document.
#[derive(PartialEq, Eq, Debug)]
pub enum Json {
    Null,
    Bool(bool),
    /// A number: its value where it is an integer, and `None` where it is not one.
    Number(Option<i128>),
    Str(String),
    Array(Vec<Json>),
    Object(Vec<(String, Json)>),
}

/// A JSON document as a mathematical value.
pub enum JsonDoc {
    Null,
    Bool(bool),
    Number(Option<i128>),
    Str(Seq<char>),
    Array(Seq<JsonDoc>),
    Object(Seq<(Seq<char>, JsonDoc)>),
}

/// The document behind a tree.
pub open spec fn doc(j: Json) -> JsonDoc
    decreases j,
{
    match j {
        Json::Null => JsonDoc::Null,
        Json::Bool(b) => JsonDoc::Bool(b),
        Json::Number(n) => JsonDoc::Number(n),
        Json::Str(s) => JsonDoc::Str(s@),
        Json::Array(v) => JsonDoc::Array(docs(v@)),
        Json::Object(v) => JsonDoc::Object(members(v@)),
    }
}

/// The documents behind the elements of an array.
pub open spec fn docs(v: Seq<Json>) -> Seq<JsonDoc>
    decreases v,
{
    if v.len() == 0 {
        Seq::empty()
    } else {
        docs(v.drop_last()).push(doc(v.last()))
    }
}

/// The documents behind the members of an object.
pub open spec fn members(v: Seq<(String, Json)>) -> Seq<(Seq<char>, JsonDoc)>
    decreases v,
{
    if v.len() == 0 {
        Seq::empty()
    } else {
        members(v.drop_last()).push((v.last().0@, doc(v.last().1)))
    }
}

proof fn docs_are_pointwise(v: Seq<Json>)
    ensures
        docs(v).len() == v.len(),
        forall|i: int| 0 <= i < v.len() ==> #[trigger] docs(v)[i] == doc(v[i]),
    decreases v.len(),
{
    if v.len() > 0 {
        docs_are_pointwise(v.drop_last());
    }
}

proof fn members_are_pointwise(v: Seq<(String, Json)>)
    ensures
        members(v).len() == v.len(),
        forall|i: int|
            0 <= i < v.len() ==> #[trigger] members(v)[i] == (v[i].0@, doc(v[i].1)),
    decreases v.len(),
{
    if v.len() > 0 {
        members_are_pointwise(v.drop_last());
    }
}

/// The first member called `key`.
pub open spec fn find(m: Seq<(Seq<char>, JsonDoc)>, key: Seq<char>) -> Option<JsonDoc>
    decreases m.len(),
{
    if m.len() == 0 {
        None
    } else if m[0].0 == key {
        Some(m[0].1)
    } else {
        find(m.drop_first(), key)
    }
}

impl JsonDoc {
    /// The member of an object called `key`; nothing else has members.
    pub open spec fn member(self, key: Seq<char>) -> Option<JsonDoc> {
        match self {
            JsonDoc::Object(m) => find(m, key),
            _ => None,
        }
    }

    /// The text of a string member.
    pub open spec fn text_at(self, key: Seq<char>) -> Option<Seq<char>> {
        match self.member(key) {
            Some(JsonDoc::Str(s)) => Some(s),
            _ => None,
        }
    }

    /// The value of a boolean member.
    pub open spec fn bool_at(self, key: Seq<char>) -> Option<bool> {
        match self.member(key) {
            Some(JsonDoc::Bool(b)) => Some(b),
            _ => None,
        }
    }

    /// The value of an integer member, where an `i64` holds it.
    pub open spec fn i64_at(self, key: Seq<char>) -> Option<i64> {
        match self.member(key) {
            Some(JsonDoc::Number(Some(n))) if i64::MIN <= n <= i64::MAX => Some(n as i64),
            _ => None,
        }
    }

    /// The value of an integer member, where a `u64` holds it.
    pub open spec fn u64_at(self, key: Seq<char>) -> Option<u64> {
        match self.member(key) {
            Some(JsonDoc::Number(Some(n))) if 0 <= n <= u64::MAX => Some(n as u64),
            _ => None,
        }
    }

    /// The elements of an array member.
    pub open spec fn array_at(self, key: Seq<char>) -> Option<Seq<JsonDoc>> {
        match self.member(key) {
            Some(JsonDoc::Array(v)) => Some(v),
            _ => None,
        }
    }

    /// The strings in an array member, without whatever else stands in it.
    pub open spec fn texts_at(self, key: Seq<char>) -> Option<Seq<Seq<char>>> {
        match self.array_at(key) {
            Some(v) => Some(strings_of(v)),
            None => None,
        }
    }
}

/// The strings among `v`.
pub open spec fn strings_of(v: Seq<JsonDoc>) -> Seq<Seq<char>>
    decreases v.len(),
{
    if v.len() == 0 {
        Seq::empty()
    } else {
        match v.last() {
            JsonDoc::Str(s) => strings_of(v.drop_last()).push(s),
            _ => strings_of(v.drop_last()),
        }
    }
}

/// `serde_json::Value`, as `serde_json` hands it out.
#[verifier::external_type_specification]
#[verifier::external_body]
pub struct ExValue(serde_json::Value);

/// What `serde_json::from_str` makes of a text: the document, or what its error
/// says.
pub uninterp spec fn json_text(text: Seq<char>) -> Result<JsonDoc, Seq<char>>;

/// The document that a `serde_json::Value` holds.
pub uninterp spec fn json_content(value: serde_json::Value) -> JsonDoc;

/// `serde_json::from_str` into a `serde_json::Value`. The document, and the text
/// of the error, depend on the text alone.
#[verifier::external_body]
fn parse_value(text: &str) -> (r: Result<serde_json::Value, String>)
    ensures
        match r {
            Ok(v) => json_text(text@) == Ok::<JsonDoc, Seq<char>>(json_content(v)),
            Err(e) => json_text(text@) == Err::<JsonDoc, Seq<char>>(e@),
        },
{
    serde_json::from_str(text).map_err(|e| e.to_string())
}

/// The variants of a `serde_json::Value`, one for one: an integer by
/// `serde_json::Number::as_i128`, which gives `None` for a number that is not one,
/// and the members of an object in the order of `serde_json::Map`.
#[verifier::external_body]
fn content(value: serde_json::Value) -> (r: Json)
    ensures
        doc(r) == json_content(value),
{
    match value {
        serde_json::Value::Null => Json::Null,
        serde_json::Value::Bool(b) => Json::Bool(b),
        serde_json::Value::Number(n) => Json::Number(n.as_i128()),
        serde_json::Value::String(s) => Json::Str(s),
        serde_json::Value::Array(v) => Json::Array(v.into_iter().map(content).collect()),
        serde_json::Value::Object(m) => Json::Object(
            m.into_iter().map(|(k, v)| (k, content(v))).collect(),
        ),
    }
}

/// The document in a text, or what is wrong with it.
pub fn parse(text: &str) -> (r: Result<Json, String>)
    ensures
        match r {
            Ok(j) => json_text(text@) == Ok::<JsonDoc, Seq<char>>(doc(j)),
            Err(e) => json_text(text@) == Err::<JsonDoc, Seq<char>>(e@),
        },
{
    match parse_value(text) {
        Ok(v) => Ok(content(v)),
        Err(e) => Err(e),
    }
}

impl Json {
    /// The member of an object called `key`.
    pub fn get(&self, key: &str) -> (r: Option<&Json>)
        ensures
            match r {
                Some(j) => doc(*self).member(key@) == Some(doc(*j)),
                None => doc(*self).member(key@) is None,
            },
    {
        match self {
            Json::Object(v) => {
                proof {
                    members_are_pointwise(v@);
                }
                let ghost m = members(v@);
                let mut i: usize = 0;
                assert(m.skip(0) =~= m);
                while i < v.len()
                    invariant
                        i <= v@.len(),
                        m == members(v@),
                        doc(*self) == JsonDoc::Object(m),
                        m.len() == v@.len(),
                        forall|k: int|
                            0 <= k < v@.len() ==> #[trigger] m[k] == (v@[k].0@, doc(v@[k].1)),
                        find(m.skip(i as int), key@) == find(m, key@),
                    decreases v@.len() - i,
                {
                    assert(m.skip(i as int)[0] == m[i as int]);
                    if same(v[i].0.as_str(), key) {
                        return Some(&v[i].1);
                    }
                    assert(m.skip(i as int).drop_first() =~= m.skip(i + 1));
                    i = i + 1;
                }
                None
            },
            _ => None,
        }
    }

    pub fn as_str(&self) -> (r: Option<&str>)
        ensures
            text::opt_str(r) == match doc(*self) {
                JsonDoc::Str(s) => Some(s),
                _ => None,
            },
    {
        match self {
            Json::Str(s) => Some(s.as_str()),
            _ => None,
        }
    }
}

/// The string called `key`.
pub fn text_field(j: &Json, key: &str) -> (r: Option<String>)
    ensures
        text::opt_text(r) == doc(*j).text_at(key@),
{
    match j.get(key) {
        Some(Json::Str(s)) => Some(s.clone()),
        _ => None,
    }
}

/// The boolean called `key`.
pub fn bool_field(j: &Json, key: &str) -> (r: Option<bool>)
    ensures
        r == doc(*j).bool_at(key@),
{
    match j.get(key) {
        Some(Json::Bool(b)) => Some(*b),
        _ => None,
    }
}

/// The integer called `key`, where an `i64` holds it.
pub fn i64_field(j: &Json, key: &str) -> (r: Option<i64>)
    ensures
        r == doc(*j).i64_at(key@),
{
    match j.get(key) {
        Some(Json::Number(Some(n))) => if i64::MIN as i128 <= *n && *n <= i64::MAX as i128 {
            Some(*n as i64)
        } else {
            None
        },
        _ => None,
    }
}

/// The integer called `key`, where a `u64` holds it.
pub fn u64_field(j: &Json, key: &str) -> (r: Option<u64>)
    ensures
        r == doc(*j).u64_at(key@),
{
    match j.get(key) {
        Some(Json::Number(Some(n))) => if 0 <= *n && *n <= u64::MAX as i128 {
            Some(*n as u64)
        } else {
            None
        },
        _ => None,
    }
}

/// The array called `key`.
pub fn array_field<'a>(j: &'a Json, key: &str) -> (r: Option<&'a Vec<Json>>)
    ensures
        match r {
            Some(v) => doc(*j).array_at(key@) == Some(docs(v@)),
            None => doc(*j).array_at(key@) is None,
        },
{
    match j.get(key) {
        Some(Json::Array(v)) => Some(v),
        _ => None,
    }
}

/// The document at `i` of an array's documents is the one behind its element.
pub proof fn docs_at(v: Seq<Json>, i: int)
    requires
        0 <= i < v.len(),
    ensures
        docs(v).len() == v.len(),
        docs(v)[i] == doc(v[i]),
{
    docs_are_pointwise(v);
}

/// The strings in the array called `key`.
pub fn texts_field(j: &Json, key: &str) -> (r: Option<Vec<String>>)
    ensures
        match r {
            Some(v) => doc(*j).texts_at(key@) == Some(text::texts(v@)),
            None => doc(*j).texts_at(key@) is None,
        },
{
    let v = match array_field(j, key) {
        Some(v) => v,
        None => {
            return None;
        },
    };
    proof {
        docs_are_pointwise(v@);
    }
    let ghost d = docs(v@);
    let mut out: Vec<String> = Vec::new();
    let mut i: usize = 0;
    assert(text::texts(out@) =~= strings_of(d.take(0)));
    while i < v.len()
        invariant
            i <= v@.len(),
            d == docs(v@),
            d.len() == v@.len(),
            forall|k: int| 0 <= k < v@.len() ==> #[trigger] d[k] == doc(v@[k]),
            text::texts(out@) == strings_of(d.take(i as int)),
        decreases v@.len() - i,
    {
        assert(d.take(i + 1).drop_last() =~= d.take(i as int));
        assert(d.take(i + 1).last() == doc(v@[i as int]));
        if let Json::Str(s) = &v[i] {
            let ghost was = out@;
            out.push(s.clone());
            assert(text::texts(out@) =~= text::texts(was).push(s@));
        }
        i = i + 1;
    }
    assert(d.take(i as int) =~= d);
    Some(out)
}

// ------------------------------------------------------------------- writing

/// What a member of a written object holds.
#[derive(PartialEq, Eq, Debug)]
pub enum Scalar {
    Text(String),
    Number(i64),
}

/// What a member of a written object holds, as a document.
pub open spec fn scalar_doc(s: Scalar) -> JsonDoc {
    match s {
        Scalar::Text(t) => JsonDoc::Str(t@),
        Scalar::Number(n) => JsonDoc::Number(Some(n as i128)),
    }
}

/// The members of a written object, as documents.
pub open spec fn scalars(v: Seq<(String, Scalar)>) -> Seq<(Seq<char>, JsonDoc)> {
    Seq::new(v.len(), |i: int| (v[i].0@, scalar_doc(v[i].1)))
}

/// No two members with one name.
pub open spec fn named_apart(m: Seq<(Seq<char>, JsonDoc)>) -> bool {
    forall|i: int, j: int|
        0 <= i < j < m.len() ==> (#[trigger] m[i]).0 != (#[trigger] m[j]).0
}

/// The text of an object with these members, as `serde_json` writes it.
pub uninterp spec fn json_object_text(m: Seq<(Seq<char>, JsonDoc)>) -> Seq<char>;

/// `serde_json::Value::to_string` on an object of strings and integers. The text
/// depends on the members alone, and reading it back gives an object in which
/// each of them is found under its name.
#[verifier::external_body]
pub(crate) fn object_text(members: Vec<(String, Scalar)>) -> (r: String)
    requires
        named_apart(scalars(members@)),
    ensures
        r@ == json_object_text(scalars(members@)),
        json_text(r@) is Ok,
        forall|i: int|
            0 <= i < members@.len() ==> json_text(r@)->Ok_0.member((#[trigger] members@[i]).0@)
                == Some(scalar_doc(members@[i].1)),
{
    let mut map = serde_json::Map::new();
    for (name, value) in members {
        let value = match value {
            Scalar::Text(t) => serde_json::Value::String(t),
            Scalar::Number(n) => serde_json::Value::from(n),
        };
        map.insert(name, value);
    }
    serde_json::Value::Object(map).to_string()
}

/// What an object holds under a key is the first member of that name, and nothing where
/// there is none.
pub proof fn law_a_member_is_the_first_of_its_name(
    m: Seq<(Seq<char>, JsonDoc)>,
    key: Seq<char>,
    i: int,
)
    requires
        0 <= i < m.len(),
        m[i].0 == key,
        forall|k: int| 0 <= k < i ==> (#[trigger] m[k]).0 != key,
    ensures
        JsonDoc::Object(m).member(key) == Some(m[i].1),
    decreases m.len(),
{
    if i > 0 {
        assert(m[0].0 != key);
        let rest = m.drop_first();
        assert forall|k: int| 0 <= k < i - 1 implies (#[trigger] rest[k]).0 != key by {
            assert(m[k + 1].0 != key);
        }
        law_a_member_is_the_first_of_its_name(rest, key, i - 1);
    }
}

/// A name that no member has is not there, and nothing but an object has members.
pub proof fn law_an_absent_name_has_no_member(d: JsonDoc, key: Seq<char>)
    ensures
        d matches JsonDoc::Object(m) ==> ((forall|k: int|
            0 <= k < m.len() ==> (#[trigger] m[k]).0 != key) ==> d.member(key) is None),
        !(d is Object) ==> d.member(key) is None,
    decreases d,
{
    if let JsonDoc::Object(m) = d {
        if forall|k: int| 0 <= k < m.len() ==> (#[trigger] m[k]).0 != key {
            absent_from(m, key);
        }
    }
}

proof fn absent_from(m: Seq<(Seq<char>, JsonDoc)>, key: Seq<char>)
    requires
        forall|k: int| 0 <= k < m.len() ==> (#[trigger] m[k]).0 != key,
    ensures
        find(m, key) is None,
    decreases m.len(),
{
    if m.len() > 0 {
        let rest = m.drop_first();
        assert forall|k: int| 0 <= k < rest.len() implies (#[trigger] rest[k]).0 != key by {
            assert(m[k + 1].0 != key);
        }
        absent_from(rest, key);
    }
}

/// Each reading of a member takes a value of its own kind and no other: a text a string, a
/// yes or no a boolean, a number an integer that fits, a list an array.
pub proof fn law_a_member_is_read_as_what_it_is(d: JsonDoc, key: Seq<char>)
    ensures
        d.text_at(key) is Some <==> (d.member(key) matches Some(v) && v is Str),
        d.text_at(key) matches Some(s) ==> d.member(key) == Some(JsonDoc::Str(s)),
        d.bool_at(key) is Some <==> (d.member(key) matches Some(v) && v is Bool),
        d.bool_at(key) matches Some(b) ==> d.member(key) == Some(JsonDoc::Bool(b)),
        d.array_at(key) is Some <==> (d.member(key) matches Some(v) && v is Array),
        d.array_at(key) matches Some(a) ==> d.member(key) == Some(JsonDoc::Array(a)),
        d.i64_at(key) matches Some(n) ==> d.member(key) == Some(JsonDoc::Number(Some(n as i128))),
        d.u64_at(key) matches Some(n) ==> d.member(key) == Some(JsonDoc::Number(Some(n as i128))),
        d.member(key) matches Some(JsonDoc::Number(Some(n))) ==> {
            &&& d.i64_at(key) is Some <==> i64::MIN <= n <= i64::MAX
            &&& d.u64_at(key) is Some <==> 0 <= n <= u64::MAX
        },
{
}

/// The strings of a list are its strings in order: one list after another gives the strings
/// of the one and then of the other, and a single element its text, or nothing.
pub proof fn law_the_strings_of_a_list(a: Seq<JsonDoc>, b: Seq<JsonDoc>, x: JsonDoc)
    ensures
        strings_of(a + b) == strings_of(a) + strings_of(b),
        strings_of(seq![x]) == (match x {
            JsonDoc::Str(s) => seq![s],
            _ => Seq::empty(),
        }),
        strings_of(Seq::empty()) == Seq::<Seq<char>>::empty(),
    decreases b.len(),
{
    assert(seq![x].drop_last() =~= Seq::empty());
    assert(strings_of(seq![x].drop_last()) =~= Seq::empty());
    if x is Str {
        assert(strings_of(seq![x]) =~= seq![x->Str_0]);
    }
    if b.len() == 0 {
        assert(a + b =~= a);
        assert(strings_of(a) + strings_of(b) =~= strings_of(a));
    } else {
        law_the_strings_of_a_list(a, b.drop_last(), x);
        assert((a + b).drop_last() =~= a + b.drop_last());
        assert((a + b).last() == b.last());
        assert(strings_of(a + b) =~= strings_of(a) + strings_of(b));
    }
}

} // verus!
