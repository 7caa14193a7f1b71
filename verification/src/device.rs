//! What a device grant's key signs.
//!
//! A device grant lets this machine keep obtaining tickets without a browser for
//! an operator-configured number of days. What makes that safe to offer at all is
//! that the authorization is a key which cannot be copied off the machine. Where
//! that key lives, and signing with it, is the platform's business; what it signs
//! is not, and is here.
//!
//! **ECDSA P-256, not RSA.** TPM RSA-2048 key generation takes seconds; P-256 is
//! quick and the assertions are smaller.

use crate::encode;
use crate::encode::{b64url, sha256};
use crate::json;
use crate::json::{object_text, JsonDoc, Scalar};
use crate::text::joined;
use vstd::prelude::*;
use vstd::string::*;
use vstd::utf8::*;

verus! {

/// How long an assertion is valid. Only a ceiling on top of the nonce, which is
/// what actually makes each one single-use; short so a stockpiled assertion is
/// stale as well as spent.
pub const ASSERTION_LIFETIME_SECONDS: i64 = 60;

/// The algorithm name the stored grant carries, and the one this key implements.
pub const ALG: &'static str = "es256";

/// The stored form of a public key: base64url-unpadded SHA-256 over the raw point.
/// The broker derives the identical value from what it is sent; a disagreement
/// here would deny every granted login.
pub fn thumbprint(point: &[u8]) -> (r: String)
    ensures
        r@ == encode::base64url(encode::sha256_of(point@)),
        r@.len() == 43,
        forall|i: int| 0 <= i < r@.len() ==> encode::base64url_char(#[trigger] r@[i]),
{
    let hash = sha256(point);
    proof {
        encode::law_base64url_is_safe(hash@);
    }
    b64url(hash.as_slice())
}

/// A public key as it is sent: base64url-unpadded, over the raw point. Different points
/// are sent as different texts.
pub fn public_key(point: &[u8]) -> (r: String)
    ensures
        r@ == encode::base64url(point@),
        forall|i: int| 0 <= i < r@.len() ==> encode::base64url_char(#[trigger] r@[i]),
{
    proof {
        encode::law_base64url_is_safe(point@);
    }
    b64url(point)
}

/// The members of an assertion's payload.
pub open spec fn claims(
    identity: Seq<char>,
    point: Seq<u8>,
    nonce: Seq<char>,
    audience: Seq<char>,
    now: i64,
) -> Seq<(Seq<char>, JsonDoc)> {
    seq![
        ("identity"@, JsonDoc::Str(identity)),
        ("key"@, JsonDoc::Str(encode::base64url(point))),
        ("nonce"@, JsonDoc::Str(nonce)),
        ("aud"@, JsonDoc::Str(audience)),
        ("exp"@, JsonDoc::Number(Some((now + ASSERTION_LIFETIME_SECONDS) as i128))),
    ]
}

/// The payload of the assertion a granted device presents in place of an IdP
/// token: who it claims to be, with which key, for whom, answering which nonce, and
/// until when.
pub fn payload(identity: &str, point: &[u8], audience: &str, nonce: &str, now: i64) -> (r: String)
    requires
        now <= i64::MAX - ASSERTION_LIFETIME_SECONDS,
    ensures
        r@ == json::json_object_text(claims(identity@, point@, nonce@, audience@, now)),
        json::json_text(r@) matches Ok(d) && d.text_at("identity"@) == Some(identity@)
            && d.text_at("key"@) == Some(encode::base64url(point@)) && d.text_at("nonce"@) == Some(
            nonce@,
        ) && d.text_at("aud"@) == Some(audience@) && d.i64_at("exp"@) == Some(
            (now + ASSERTION_LIFETIME_SECONDS) as i64,
        ),
{
    proof {
        reveal_strlit("identity");
        reveal_strlit("key");
        reveal_strlit("nonce");
        reveal_strlit("aud");
        reveal_strlit("exp");
        assert("identity"@[0] == 'i' && "key"@[0] == 'k' && "nonce"@[0] == 'n' && "aud"@[0] == 'a'
            && "exp"@[0] == 'e');
    }
    let mut members: Vec<(String, Scalar)> = Vec::new();
    members.push(("identity".to_owned(), Scalar::Text(identity.to_owned())));
    members.push(("key".to_owned(), Scalar::Text(public_key(point))));
    members.push(("nonce".to_owned(), Scalar::Text(nonce.to_owned())));
    members.push(("aud".to_owned(), Scalar::Text(audience.to_owned())));
    members.push(("exp".to_owned(), Scalar::Number(now + ASSERTION_LIFETIME_SECONDS)));
    let ghost m = members@;
    assert(json::scalars(m) =~= claims(identity@, point@, nonce@, audience@, now));
    let r = object_text(members);
    proof {
        let d = json::json_text(r@)->Ok_0;
        assert(d.member(m[0].0@) == Some(json::scalar_doc(m[0].1)));
        assert(d.member(m[1].0@) == Some(json::scalar_doc(m[1].1)));
        assert(d.member(m[2].0@) == Some(json::scalar_doc(m[2].1)));
        assert(d.member(m[3].0@) == Some(json::scalar_doc(m[3].1)));
        assert(d.member(m[4].0@) == Some(json::scalar_doc(m[4].1)));
    }
    r
}

/// The ASCII text that the key signs: the payload, encoded.
pub fn to_sign(payload: &str) -> (r: String)
    ensures
        r@ == encode::base64url(encode_utf8(payload@)),
        forall|i: int| 0 <= i < r@.len() ==> encode::base64url_char(#[trigger] r@[i]),
{
    proof {
        encode::law_base64url_is_safe(encode_utf8(payload@));
    }
    b64url(payload.as_bytes())
}

/// The assertion: `<base64url(payload)>.<base64url(signature)>`, signed over the
/// ASCII bytes of the encoded payload.
///
/// There is no header: the algorithm is not the client's to choose -- the stored
/// grant names it -- and a header would only reintroduce the `alg` confusion the
/// broker's token verifier is structured to make unreachable.
pub fn assertion(signed: &str, signature: &[u8]) -> (r: String)
    ensures
        r@ == signed@ + "."@ + encode::base64url(signature@),
{
    let head = joined(signed, ".");
    let tail = b64url(signature);
    joined(head.as_str(), tail.as_str())
}

/// An assertion splits into what was signed and the signature in one way only:
/// neither part holds the dot that stands between them.
pub proof fn law_an_assertion_has_one_dot(signed: Seq<char>, signature: Seq<char>)
    requires
        forall|i: int| 0 <= i < signed.len() ==> encode::base64url_char(#[trigger] signed[i]),
        forall|i: int| 0 <= i < signature.len() ==> encode::base64url_char(#[trigger] signature[i]),
    ensures
        forall|i: int|
            0 <= i < (signed + "."@ + signature).len() ==> ((#[trigger] (signed + "."@
                + signature)[i] == '.') <==> i == signed.len()),
{
    reveal_strlit(".");
    let a = signed + "."@ + signature;
    assert forall|i: int| 0 <= i < a.len() implies ((#[trigger] a[i] == '.') <==> i == signed.len()) by {
        if i < signed.len() {
            assert(a[i] == signed[i]);
        } else if i > signed.len() {
            assert(a[i] == signature[i - signed.len() - 1]);
        }
    }
}

/// An assertion says whose it is, with which key, to what nonce, for which broker, and that
/// it holds for a minute from now: each under its own name, once.
pub proof fn law_what_an_assertion_says(
    identity: Seq<char>,
    point: Seq<u8>,
    nonce: Seq<char>,
    audience: Seq<char>,
    now: i64,
)
    ensures
        ({
            let c = claims(identity, point, nonce, audience, now);
            &&& c.len() == 5
            &&& c[0] == ("identity"@, JsonDoc::Str(identity))
            &&& c[1] == ("key"@, JsonDoc::Str(encode::base64url(point)))
            &&& c[2] == ("nonce"@, JsonDoc::Str(nonce))
            &&& c[3] == ("aud"@, JsonDoc::Str(audience))
            &&& c[4] == ("exp"@, JsonDoc::Number(Some((now + 60) as i128)))
        }),
{
}

} // verus!
