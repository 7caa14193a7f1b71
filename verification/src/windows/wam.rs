//! What is asked of the Windows token broker, and what its answers mean.
//!
//! **Nothing here is allowed to break sign-in.** Every failure is "unavailable",
//! and the caller falls back to the browser flow that has always been there.

use crate::agent::signin::NativeToken;
use crate::text;
use crate::text::{hex8_of, join_all, same, trim_end_char, trim_end_str};
use vstd::prelude::*;
use vstd::string::*;

verus! {

/// The account-provider id for Microsoft accounts and Entra ID. It names the
/// *provider*; the authority names the tenant it should authenticate against.
pub const PROVIDER_ID: &'static str = "https://login.microsoft.com";

/// Ask the plugin for v2.0 protocol behavior, so `scope` means what it means everywhere
/// else and the token comes back in the shape the broker validates.
pub const WAM_COMPAT: (&'static str, &'static str) = ("wam_compat", "2.0");

/// Whether a scope means nothing to the token broker: it is not running an OIDC
/// flow for us and it keeps the refresh token itself.
pub open spec fn is_oidc_scope(s: Seq<char>) -> bool {
    s == "openid"@ || s == "profile"@ || s == "email"@ || s == "offline_access"@
}

/// The scopes that name a resource.
pub open spec fn resource_scopes(scopes: Seq<Seq<char>>) -> Seq<Seq<char>>
    decreases scopes.len(),
{
    if scopes.len() == 0 {
        Seq::empty()
    } else if is_oidc_scope(scopes.last()) {
        resource_scopes(scopes.drop_last())
    } else {
        resource_scopes(scopes.drop_last()).push(scopes.last())
    }
}

/// The broker API scope, i.e. the one that names the resource, or nothing where the
/// broker advertised none.
pub fn broker_scope(scopes: &Vec<String>) -> (r: Option<String>)
    ensures
        text::opt_text(r) == (if resource_scopes(text::texts(scopes@)).len() == 0 {
            None
        } else {
            Some(text::join(resource_scopes(text::texts(scopes@)), " "@))
        }),
{
    let ghost all = text::texts(scopes@);
    let mut kept: Vec<String> = Vec::new();
    let mut i: usize = 0;
    assert(text::texts(kept@) =~= resource_scopes(all.take(0)));
    while i < scopes.len()
        invariant
            i <= scopes@.len(),
            all == text::texts(scopes@),
            text::texts(kept@) == resource_scopes(all.take(i as int)),
        decreases scopes@.len() - i,
    {
        let s = scopes[i].as_str();
        assert(all.take(i + 1).drop_last() =~= all.take(i as int));
        assert(all.take(i + 1).last() == s@);
        if !(same(s, "openid") || same(s, "profile") || same(s, "email") || same(
            s,
            "offline_access",
        )) {
            let ghost was = kept@;
            kept.push(scopes[i].clone());
            assert(text::texts(kept@) =~= text::texts(was).push(s@));
        }
        i = i + 1;
    }
    assert(all.take(i as int) =~= all);
    assert(text::texts(kept@).len() == kept@.len());
    if kept.len() == 0 {
        None
    } else {
        Some(join_all(&kept, " "))
    }
}

/// The tenant authority behind an OIDC issuer: the `/v2.0` suffix the discovery
/// document is published under is not part of it.
pub open spec fn tenant_of(authority: Seq<char>) -> Seq<char> {
    text::without_trailing(
        text::without_suffix(text::without_trailing(authority, '/'), "/v2.0"@),
        '/',
    )
}

pub fn wam_authority(authority: &str) -> (r: String)
    ensures
        r@ == tenant_of(authority@),
{
    proof {
        reveal_strlit("/v2.0");
    }
    let a = trim_end_char(authority, '/');
    let b = trim_end_str(a.as_str(), "/v2.0");
    trim_end_char(b.as_str(), '/')
}

/// What the token broker answered to a silent request.
#[derive(PartialEq, Eq, Debug)]
pub enum Answer {
    Success(String),
    /// No account that it can serve unattended.
    NeedsUser,
    /// Anything else, an error included.
    Failed,
}

/// What an answer is worth: a token, or nothing at all. Escalating to the broker's own
/// dialog would summon a Workplace Join prompt, so everything short of a token is the
/// browser's case.
pub fn acquire(answer: Answer) -> (r: NativeToken)
    ensures
        r@ == (match answer {
            Answer::Success(t) => Some(t@),
            _ => None,
        }),
{
    match answer {
        Answer::Success(t) => NativeToken::Token(t),
        _ => NativeToken::Unavailable,
    }
}

/// The provider's error, for the log: its code and its message, and nothing where a
/// result carries none. Never the token or anything from it.
pub fn describe(error: Option<(u32, &str)>) -> (r: String)
    ensures
        r@ == (match error {
            Some((code, message)) => ": 0x"@ + text::hex8(code) + " "@ + message@,
            None => Seq::empty(),
        }),
{
    match error {
        Some((code, message)) => {
            let mut s = ": 0x".to_owned();
            s.append(hex8_of(code).as_str());
            s.append(" ");
            s.append(message);
            s
        },
        None => {
            let none = String::new();
            assert(none@ =~= Seq::empty());
            none
        },
    }
}

/// What is asked for names a resource and nothing of the OIDC flow.
pub proof fn law_no_oidc_scope_is_asked_for(scopes: Seq<Seq<char>>, i: int)
    requires
        0 <= i < resource_scopes(scopes).len(),
    ensures
        !is_oidc_scope(resource_scopes(scopes)[i]),
        scopes.contains(resource_scopes(scopes)[i]),
    decreases scopes.len(),
{
    let rest = scopes.drop_last();
    if is_oidc_scope(scopes.last()) || i < resource_scopes(rest).len() {
        law_no_oidc_scope_is_asked_for(rest, i);
        let k = choose|k: int| 0 <= k < rest.len() && rest[k] == resource_scopes(rest)[i];
        assert(scopes[k] == resource_scopes(rest)[i]);
    } else {
        assert(scopes[scopes.len() - 1] == scopes.last());
    }
}

/// Every scope that is not one of the four of OpenID Connect is asked for, in its order.
pub proof fn law_every_other_scope_is_asked_for(a: Seq<Seq<char>>, s: Seq<char>)
    ensures
        s == "openid"@ || s == "profile"@ || s == "email"@ || s == "offline_access"@
            ==> resource_scopes(a.push(s)) == resource_scopes(a),
        !(s == "openid"@ || s == "profile"@ || s == "email"@ || s == "offline_access"@)
            ==> resource_scopes(a.push(s)) == resource_scopes(a).push(s),
        resource_scopes(Seq::empty()) == Seq::<Seq<char>>::empty(),
{
    assert(a.push(s).drop_last() =~= a);
}

/// A tenant is the authority without its version and without slashes at its end.
pub proof fn law_a_tenant_is_the_authority_without_its_version(tenant: Seq<char>)
    requires
        tenant.len() > 0,
        tenant.last() != '/',
        !"/v2.0"@.is_suffix_of(tenant),
    ensures
        tenant_of(tenant) == tenant,
        tenant_of(tenant.push('/')) == tenant,
        tenant_of(tenant + "/v2.0"@) == tenant,
        tenant_of((tenant + "/v2.0"@).push('/')) == tenant,
{
    reveal_strlit("/v2.0");
    let v = "/v2.0"@;
    assert(v.len() == 5 && v[4] == '0');
    assert(tenant.push('/').drop_last() =~= tenant);
    let long = tenant + v;
    assert(long.push('/').drop_last() =~= long);
    assert(long.last() == '0');
    text::law_a_suffix_goes_as_often_as_it_stands(tenant, v);
}

} // verus!
