//! Convert the broker's MIT ccache into a KRB-CRED (`.krbcred`) blob.
//!
//! `KerbSubmitTicketMessage` wants a DER-encoded KRB-CRED message (RFC 4120 5.8.1).
//! A ccache holds the identical ticket + session key, so this is a pure
//! repackaging with no crypto: parse the ccache, keep only the real TGT
//! credential, and re-encode as an *unencrypted* KRB-CRED (enc-part etype 0),
//! which is the convention for a local pass-the-ticket.
//!
//! The cache layout:
//!
//! ```text
//! u16 version (0x0504)     u16 header_len   header[header_len]
//! principal default        credential*  (to EOF)
//!
//! principal  ::= u32 name_type  u32 n_components  str realm  str comp[n]
//! credential ::= principal client  principal server
//!                u16 keytype  str key
//!                u32 authtime  u32 starttime  u32 endtime  u32 renew_till
//!                u8 is_skey  u32 tktflags
//!                u32 n_addr  (u16 type, str)[n_addr]
//!                u32 n_authdata  (u16 type, str)[n_authdata]
//!                str ticket  str second_ticket
//! str        ::= u32 len  bytes[len]
//! ```
//!
//! v4 has **no** `etype` field in the keyblock -- that exists only in v3 -- and all
//! integers are big-endian, unlike the native-endian v1/v2 caches.
//!
//! The `*_at` functions below are that grammar, read from an offset: each gives
//! what stands there and where the next thing starts, or what was wanted and
//! where the bytes ran out.

use crate::der;
use crate::der::{
    ctx, general_string, integer, kerberos_time, octets, tlv, TAG_BIT_STRING, TAG_OCTET_STRING,
    TAG_SEQUENCE,
};
use crate::text;
use crate::text::{decimal_of, hex4_of, join_all};
use vstd::prelude::*;
use vstd::string::*;
use vstd::utf8::*;

verus! {

/// A TGT ready to submit, with the lifetime the KDC granted it.
pub struct Tgt {
    /// DER KRB-CRED bytes for `KerbSubmitTicketMessage`.
    pub krbcred: Vec<u8>,
    /// Unix seconds. `renew_till` is 0 when the ticket is not renewable.
    pub start: i64,
    pub end: i64,
    pub renew_till: i64,
}

/// One credential as a ccache holds it, for a caller that wants to *look at* a
/// cache rather than repackage one.
pub struct CachedCred {
    /// `user@REALM`.
    pub client: String,
    /// `krbtgt/REALM@REALM`, `cifs/nas1.example.site@REALM`, and so on.
    pub server: String,
    /// Unix seconds, with the same `authtime` fallback [`ccache_to_tgt`] applies.
    pub start: i64,
    pub end: i64,
    /// 0 when the ticket is not renewable.
    pub renew_till: i64,
    /// True for this cache's own ticket-granting ticket.
    pub is_tgt: bool,
}

/// Why a cache could not be used.
#[derive(Clone, Copy, PartialEq, Eq, Debug)]
pub enum CcacheError {
    /// Not a version 4 cache; the version it names instead.
    Version(u16),
    /// The bytes end inside something: how many were wanted, and where.
    Truncated { wanted: usize, at: usize },
    /// A well-formed cache that holds no ticket-granting ticket of its own realm.
    NoTgt,
}

pub const VERSION_V4: u16 = 0x0504;

impl CcacheError {
    /// The sentence a log shows.
    pub open spec fn says(self) -> Seq<char> {
        match self {
            CcacheError::Version(v) => "unsupported ccache version 0x"@ + text::hex4(v) + ", expected 0x0504"@,
            CcacheError::Truncated { wanted, at } => "truncated ccache: wanted "@ + text::decimal(
                wanted as nat,
            ) + " bytes at offset "@ + text::decimal(at as nat),
            CcacheError::NoTgt => "no TGT (krbtgt/...) credential found in the broker ccache"@,
        }
    }

    pub fn message(&self) -> (r: String)
        ensures
            r@ == self.says(),
    {
        match self {
            CcacheError::Version(v) => {
                let mut s = "unsupported ccache version 0x".to_owned();
                s.append(hex4_of(*v).as_str());
                s.append(", expected 0x0504");
                s
            },
            CcacheError::Truncated { wanted, at } => {
                let mut s = "truncated ccache: wanted ".to_owned();
                s.append(decimal_of(*wanted as u64).as_str());
                s.append(" bytes at offset ");
                s.append(decimal_of(*at as u64).as_str());
                s
            },
            CcacheError::NoTgt =>
                "no TGT (krbtgt/...) credential found in the broker ccache".to_owned(),
        }
    }
}

// ---------------------------------------------------------------- the models

/// A principal as the cache spells it.
#[verifier::ext_equal]
pub struct PrincipalModel {
    pub name_type: u32,
    pub realm: Seq<char>,
    pub components: Seq<Seq<char>>,
}

/// A credential as the cache spells it.
#[verifier::ext_equal]
pub struct CredentialModel {
    pub client: PrincipalModel,
    pub server: PrincipalModel,
    pub keytype: u16,
    pub key: Seq<u8>,
    pub authtime: u32,
    pub starttime: u32,
    pub endtime: u32,
    pub renew_till: u32,
    pub flags: u32,
    pub ticket: Seq<u8>,
}

impl PrincipalModel {
    /// The conventional `comp/comp@REALM` spelling.
    pub open spec fn text(self) -> Seq<char> {
        text::join(self.components, seq!['/']) + seq!['@'] + self.realm
    }
}

impl CredentialModel {
    /// A local ticket-granting ticket: `krbtgt/REALM@REALM`, in exactly the
    /// two-component form.
    pub open spec fn is_tgt(self) -> bool {
        &&& self.server.components.len() == 2
        &&& self.server.components[0] == "krbtgt"@
        &&& self.server.components[1] == self.server.realm
    }

    /// When the ticket starts: `starttime`, or `authtime` where the KDC left the
    /// optional start out and the cache holds 0 for it.
    pub open spec fn start(self) -> u32 {
        if self.starttime != 0 {
            self.starttime
        } else {
            self.authtime
        }
    }
}

pub struct Principal {
    pub name_type: u32,
    pub realm: String,
    pub components: Vec<String>,
}

impl View for Principal {
    type V = PrincipalModel;

    open spec fn view(&self) -> PrincipalModel {
        PrincipalModel {
            name_type: self.name_type,
            realm: self.realm@,
            components: text::texts(self.components@),
        }
    }
}

pub struct Credential {
    pub client: Principal,
    pub server: Principal,
    pub keytype: u16,
    pub key: Vec<u8>,
    pub authtime: u32,
    pub starttime: u32,
    pub endtime: u32,
    pub renew_till: u32,
    pub flags: u32,
    /// The KDC's DER `Ticket`, exactly as the cache stored it.
    pub ticket: Vec<u8>,
}

impl View for Credential {
    type V = CredentialModel;

    open spec fn view(&self) -> CredentialModel {
        CredentialModel {
            client: self.client@,
            server: self.server@,
            keytype: self.keytype,
            key: self.key@,
            authtime: self.authtime,
            starttime: self.starttime,
            endtime: self.endtime,
            renew_till: self.renew_till,
            flags: self.flags,
            ticket: self.ticket@,
        }
    }
}

/// The credentials behind a vector of them.
pub open spec fn models(v: Seq<Credential>) -> Seq<CredentialModel> {
    Seq::new(v.len(), |i: int| v[i]@)
}

impl Principal {
    pub fn text(&self) -> (r: String)
        ensures
            r@ == self@.text(),
    {
        let mut s = join_all(&self.components, "/");
        proof {
            reveal_strlit("/");
            reveal_strlit("@");
            assert("/"@ =~= seq!['/']);
            assert("@"@ =~= seq!['@']);
        }
        s.append("@");
        s.append(self.realm.as_str());
        s
    }
}

impl Credential {
    pub fn is_tgt(&self) -> (r: bool)
        ensures
            r == self@.is_tgt(),
    {
        if self.server.components.len() != 2 {
            return false;
        }
        let krbtgt: String = "krbtgt".to_owned();
        assert(self@.server.components[0] == self.server.components@[0]@);
        assert(self@.server.components[1] == self.server.components@[1]@);
        self.server.components[0] == krbtgt && self.server.components[1] == self.server.realm
    }

    pub fn start(&self) -> (r: u32)
        ensures
            r == self@.start(),
    {
        if self.starttime != 0 {
            self.starttime
        } else {
            self.authtime
        }
    }
}

// ---------------------------------------------------------------- the grammar

/// What a text of these bytes reads as when every byte sequence that is not
/// UTF-8 becomes U+FFFD.
pub uninterp spec fn utf8_lossy(bytes: Seq<u8>) -> Seq<char>;

/// `String::from_utf8_lossy`: the text of the bytes, which for well-formed UTF-8
/// is exactly what they encode. How an ill-formed run is replaced is left to the
/// name.
#[verifier::external_body]
fn lossy(bytes: &Vec<u8>) -> (s: String)
    ensures
        s@ == utf8_lossy(bytes@),
        valid_utf8(bytes@) ==> s@ == decode_utf8(bytes@),
{
    String::from_utf8_lossy(bytes).into_owned()
}

/// What was wanted, and where, when the bytes ran out.
pub struct Short {
    pub wanted: int,
    pub at: int,
}

pub open spec fn take_at(b: Seq<u8>, at: int, n: int) -> Result<(Seq<u8>, int), Short> {
    if at + n <= b.len() {
        Ok((b.subrange(at, at + n), at + n))
    } else {
        Err(Short { wanted: n, at })
    }
}

pub open spec fn u16_of(s: Seq<u8>) -> u16 {
    (s[0] * 0x100 + s[1]) as u16
}

pub open spec fn u32_of(s: Seq<u8>) -> u32 {
    (s[0] * 0x100_0000 + s[1] * 0x1_0000 + s[2] * 0x100 + s[3]) as u32
}

pub open spec fn u16_at(b: Seq<u8>, at: int) -> Result<(u16, int), Short> {
    match take_at(b, at, 2) {
        Ok((s, next)) => Ok((u16_of(s), next)),
        Err(e) => Err(e),
    }
}

pub open spec fn u32_at(b: Seq<u8>, at: int) -> Result<(u32, int), Short> {
    match take_at(b, at, 4) {
        Ok((s, next)) => Ok((u32_of(s), next)),
        Err(e) => Err(e),
    }
}

pub open spec fn bytes_at(b: Seq<u8>, at: int) -> Result<(Seq<u8>, int), Short> {
    match u32_at(b, at) {
        Ok((len, next)) => take_at(b, next, len as int),
        Err(e) => Err(e),
    }
}

pub open spec fn str_at(b: Seq<u8>, at: int) -> Result<(Seq<char>, int), Short> {
    match bytes_at(b, at) {
        Ok((s, next)) => Ok((utf8_lossy(s), next)),
        Err(e) => Err(e),
    }
}

/// `n` strings in a row.
pub open spec fn strs_at(b: Seq<u8>, at: int, n: nat) -> Result<(Seq<Seq<char>>, int), Short>
    decreases n,
{
    if n == 0 {
        Ok((Seq::empty(), at))
    } else {
        match strs_at(b, at, (n - 1) as nat) {
            Ok((front, mid)) => match str_at(b, mid) {
                Ok((s, next)) => Ok((front.push(s), next)),
                Err(e) => Err(e),
            },
            Err(e) => Err(e),
        }
    }
}

#[verifier::opaque]
pub open spec fn principal_at(b: Seq<u8>, at: int) -> Result<(PrincipalModel, int), Short> {
    match u32_at(b, at) {
        Err(e) => Err(e),
        Ok((name_type, at)) => match u32_at(b, at) {
            Err(e) => Err(e),
            Ok((n, at)) => match str_at(b, at) {
                Err(e) => Err(e),
                Ok((realm, at)) => match strs_at(b, at, n as nat) {
                    Err(e) => Err(e),
                    Ok((components, at)) => Ok(
                        (PrincipalModel { name_type, realm, components }, at),
                    ),
                },
            },
        },
    }
}

/// The key: its type, then its bytes.
#[verifier::opaque]
pub open spec fn key_at(b: Seq<u8>, at: int) -> Result<((u16, Seq<u8>), int), Short> {
    match u16_at(b, at) {
        Err(e) => Err(e),
        Ok((keytype, at)) => match bytes_at(b, at) {
            Err(e) => Err(e),
            Ok((key, at)) => Ok(((keytype, key), at)),
        },
    }
}

/// The four times of a ticket, the `is_skey` byte that nothing reads, and its flags.
pub struct Times {
    pub authtime: u32,
    pub starttime: u32,
    pub endtime: u32,
    pub renew_till: u32,
    pub flags: u32,
}

#[verifier::opaque]
pub open spec fn times_at(b: Seq<u8>, at: int) -> Result<(Times, int), Short> {
    match u32_at(b, at) {
        Err(e) => Err(e),
        Ok((authtime, at)) => match u32_at(b, at) {
            Err(e) => Err(e),
            Ok((starttime, at)) => match u32_at(b, at) {
                Err(e) => Err(e),
                Ok((endtime, at)) => match u32_at(b, at) {
                    Err(e) => Err(e),
                    Ok((renew_till, at)) => match take_at(b, at, 1) {
                        Err(e) => Err(e),
                        Ok((_, at)) => match u32_at(b, at) {
                            Err(e) => Err(e),
                            Ok((flags, at)) => Ok(
                                (Times { authtime, starttime, endtime, renew_till, flags }, at),
                            ),
                        },
                    },
                },
            },
        },
    }
}

/// `n` typed strings in a row, none of which is kept.
pub open spec fn typed_at(b: Seq<u8>, at: int, n: nat) -> Result<int, Short>
    decreases n,
{
    if n == 0 {
        Ok(at)
    } else {
        match typed_at(b, at, (n - 1) as nat) {
            Err(e) => Err(e),
            Ok(at) => match u16_at(b, at) {
                Err(e) => Err(e),
                Ok((_, at)) => match bytes_at(b, at) {
                    Err(e) => Err(e),
                    Ok((_, at)) => Ok(at),
                },
            },
        }
    }
}

/// A counted list of typed strings: the addresses, and the authorization data.
pub open spec fn list_at(b: Seq<u8>, at: int) -> Result<int, Short> {
    match u32_at(b, at) {
        Err(e) => Err(e),
        Ok((n, at)) => typed_at(b, at, n as nat),
    }
}

/// The ticket, past both lists and before the second ticket.
#[verifier::opaque]
pub open spec fn ticket_at(b: Seq<u8>, at: int) -> Result<(Seq<u8>, int), Short> {
    match list_at(b, at) {
        Err(e) => Err(e),
        Ok(at) => match list_at(b, at) {
            Err(e) => Err(e),
            Ok(at) => match bytes_at(b, at) {
                Err(e) => Err(e),
                Ok((ticket, at)) => match bytes_at(b, at) {
                    Err(e) => Err(e),
                    Ok((_, at)) => Ok((ticket, at)),
                },
            },
        },
    }
}

#[verifier::opaque]
pub open spec fn credential_at(b: Seq<u8>, at: int) -> Result<(CredentialModel, int), Short> {
    match principal_at(b, at) {
        Err(e) => Err(e),
        Ok((client, at)) => match principal_at(b, at) {
            Err(e) => Err(e),
            Ok((server, at)) => match key_at(b, at) {
                Err(e) => Err(e),
                Ok(((keytype, key), at)) => match times_at(b, at) {
                    Err(e) => Err(e),
                    Ok((t, at)) => match ticket_at(b, at) {
                        Err(e) => Err(e),
                        Ok((ticket, at)) => Ok(
                            (
                                CredentialModel {
                                    client,
                                    server,
                                    keytype,
                                    key,
                                    authtime: t.authtime,
                                    starttime: t.starttime,
                                    endtime: t.endtime,
                                    renew_till: t.renew_till,
                                    flags: t.flags,
                                    ticket,
                                },
                                at,
                            ),
                        ),
                    },
                },
            },
        },
    }
}

/// Every credential from `at` to the end of the bytes.
pub open spec fn credentials_from(b: Seq<u8>, at: int) -> Result<Seq<CredentialModel>, Short>
    decreases b.len() - at,
{
    if at >= b.len() {
        Ok(Seq::empty())
    } else {
        match credential_at(b, at) {
            Err(e) => Err(e),
            Ok((c, next)) => {
                proof {
                    law_credentials_advance(b, at);
                }
                match credentials_from(b, next) {
                    Err(e) => Err(e),
                    Ok(rest) => Ok(seq![c] + rest),
                }
            },
        }
    }
}

/// Why `b` is no cache, as the reader reports it.
pub open spec fn truncated(e: Short) -> CcacheError {
    CcacheError::Truncated { wanted: e.wanted as usize, at: e.at as usize }
}

/// A whole cache: what it holds, in file order, or why it cannot be read.
pub open spec fn cache_of(b: Seq<u8>) -> Result<Seq<CredentialModel>, CcacheError> {
    match u16_at(b, 0) {
        Err(e) => Err(truncated(e)),
        Ok((version, at)) => if version != VERSION_V4 {
            Err(CcacheError::Version(version))
        } else {
            match u16_at(b, at) {
                Err(e) => Err(truncated(e)),
                Ok((header_len, at)) => match take_at(b, at, header_len as int) {
                    Err(e) => Err(truncated(e)),
                    Ok((_, at)) => match principal_at(b, at) {
                        Err(e) => Err(truncated(e)),
                        Ok((_, at)) => match credentials_from(b, at) {
                            Err(e) => Err(truncated(e)),
                            Ok(all) => Ok(all),
                        },
                    },
                },
            }
        },
    }
}

/// The first ticket-granting ticket among `all`.
pub open spec fn first_tgt(all: Seq<CredentialModel>) -> Option<CredentialModel>
    decreases all.len(),
{
    if all.len() == 0 {
        None
    } else if all[0].is_tgt() {
        Some(all[0])
    } else {
        first_tgt(all.drop_first())
    }
}

// ---------------------------------------------------------------- ccache read

proof fn strs_advance(b: Seq<u8>, at: int, n: nat)
    ensures
        strs_at(b, at, n) matches Ok((_, next)) ==> next >= at,
    decreases n,
{
    if n > 0 {
        strs_advance(b, at, (n - 1) as nat);
    }
}

proof fn typed_advance(b: Seq<u8>, at: int, n: nat)
    ensures
        typed_at(b, at, n) matches Ok(next) ==> next >= at,
    decreases n,
{
    if n > 0 {
        typed_advance(b, at, (n - 1) as nat);
    }
}

proof fn principal_advance(b: Seq<u8>, at: int)
    ensures
        principal_at(b, at) matches Ok((_, next)) ==> next > at,
{
    reveal(principal_at);
    if let Ok((_, at1)) = u32_at(b, at) {
        if let Ok((n, at2)) = u32_at(b, at1) {
            if let Ok((_, at3)) = str_at(b, at2) {
                strs_advance(b, at3, n as nat);
            }
        }
    }
}

proof fn list_advance(b: Seq<u8>, at: int)
    ensures
        list_at(b, at) matches Ok(next) ==> next >= at,
{
    if let Ok((n, at1)) = u32_at(b, at) {
        typed_advance(b, at1, n as nat);
    }
}

/// A credential takes at least one byte and none past the end, so reading them in a row
/// reaches it.
pub proof fn law_credentials_advance(b: Seq<u8>, at: int)
    ensures
        credential_at(b, at) matches Ok((_, next)) ==> at < next <= b.len(),
{
    reveal(credential_at);
    reveal(key_at);
    reveal(times_at);
    reveal(ticket_at);
    principal_advance(b, at);
    if let Ok((_, a1)) = principal_at(b, at) {
        principal_advance(b, a1);
        if let Ok((_, a2)) = principal_at(b, a1) {
            if let Ok((_, a3)) = key_at(b, a2) {
                if let Ok((_, a4)) = times_at(b, a3) {
                    list_advance(b, a4);
                    if let Ok(a5) = list_at(b, a4) {
                        list_advance(b, a5);
                    }
                }
            }
        }
    }
}

struct Reader<'a> {
    b: &'a [u8],
    at: usize,
}

impl<'a> Reader<'a> {
    spec fn ok(&self) -> bool {
        self.at <= self.b@.len()
    }

    spec fn same_bytes(&self, other: &Reader<'a>) -> bool {
        self.b@ == other.b@
    }

    fn take(&mut self, n: usize) -> (r: Result<Vec<u8>, CcacheError>)
        requires
            old(self).ok(),
        ensures
            final(self).ok(),
            final(self).same_bytes(old(self)),
            match (r, take_at(old(self).b@, old(self).at as int, n as int)) {
                (Ok(v), Ok((s, next))) => v@ == s && final(self).at == next,
                (Err(e), Err(s)) => e == truncated(s),
                _ => false,
            },
    {
        if n > self.b.len() - self.at {
            return Err(CcacheError::Truncated { wanted: n, at: self.at });
        }
        let mut out: Vec<u8> = Vec::new();
        let end: usize = self.at + n;
        let mut i: usize = self.at;
        while i < end
            invariant
                self.at <= i <= end <= self.b@.len(),
                out@ == self.b@.subrange(self.at as int, i as int),
            decreases end - i,
        {
            out.push(self.b[i]);
            i = i + 1;
        }
        self.at = end;
        Ok(out)
    }

    fn u16(&mut self) -> (r: Result<u16, CcacheError>)
        requires
            old(self).ok(),
        ensures
            final(self).ok(),
            final(self).same_bytes(old(self)),
            match (r, u16_at(old(self).b@, old(self).at as int)) {
                (Ok(v), Ok((m, next))) => v == m && final(self).at == next,
                (Err(e), Err(s)) => e == truncated(s),
                _ => false,
            },
    {
        match self.take(2) {
            Ok(s) => Ok(s[0] as u16 * 0x100 + s[1] as u16),
            Err(e) => Err(e),
        }
    }

    fn u32(&mut self) -> (r: Result<u32, CcacheError>)
        requires
            old(self).ok(),
        ensures
            final(self).ok(),
            final(self).same_bytes(old(self)),
            match (r, u32_at(old(self).b@, old(self).at as int)) {
                (Ok(v), Ok((m, next))) => v == m && final(self).at == next,
                (Err(e), Err(s)) => e == truncated(s),
                _ => false,
            },
    {
        match self.take(4) {
            Ok(s) => Ok(
                s[0] as u32 * 0x100_0000 + s[1] as u32 * 0x1_0000 + s[2] as u32 * 0x100
                    + s[3] as u32,
            ),
            Err(e) => Err(e),
        }
    }

    fn bytes(&mut self) -> (r: Result<Vec<u8>, CcacheError>)
        requires
            old(self).ok(),
        ensures
            final(self).ok(),
            final(self).same_bytes(old(self)),
            match (r, bytes_at(old(self).b@, old(self).at as int)) {
                (Ok(v), Ok((s, next))) => v@ == s && final(self).at == next,
                (Err(e), Err(s)) => e == truncated(s),
                _ => false,
            },
    {
        match self.u32() {
            Ok(len) => self.take(len as usize),
            Err(e) => Err(e),
        }
    }

    fn str(&mut self) -> (r: Result<String, CcacheError>)
        requires
            old(self).ok(),
        ensures
            final(self).ok(),
            final(self).same_bytes(old(self)),
            match (r, str_at(old(self).b@, old(self).at as int)) {
                (Ok(v), Ok((s, next))) => v@ == s && final(self).at == next,
                (Err(e), Err(s)) => e == truncated(s),
                _ => false,
            },
    {
        match self.bytes() {
            Ok(v) => Ok(lossy(&v)),
            Err(e) => Err(e),
        }
    }

    fn strs(&mut self, n: u32) -> (r: Result<Vec<String>, CcacheError>)
        requires
            old(self).ok(),
        ensures
            final(self).ok(),
            final(self).same_bytes(old(self)),
            match (r, strs_at(old(self).b@, old(self).at as int, n as nat)) {
                (Ok(v), Ok((s, next))) => text::texts(v@) == s && final(self).at == next,
                (Err(e), Err(s)) => e == truncated(s),
                _ => false,
            },
    {
        let ghost b = self.b@;
        let ghost at = self.at as int;
        let mut out: Vec<String> = Vec::new();
        let mut i: u32 = 0;
        assert(text::texts(out@) =~= Seq::empty());
        while i < n
            invariant
                i <= n,
                self.ok(),
                self.b@ == b,
                b == old(self).b@,
                at == old(self).at,
                strs_at(b, at, i as nat) == Ok::<(Seq<Seq<char>>, int), Short>(
                    (text::texts(out@), self.at as int),
                ),
            decreases n - i,
        {
            let ghost before = text::texts(out@);
            match self.str() {
                Ok(s) => {
                    let ghost t = s@;
                    out.push(s);
                    assert(text::texts(out@) =~= before.push(t));
                },
                Err(e) => {
                    proof {
                        strs_stop(b, at, (i + 1) as nat, n as nat);
                    }
                    return Err(e);
                },
            }
            i = i + 1;
        }
        Ok(out)
    }

    fn principal(&mut self) -> (r: Result<Principal, CcacheError>)
        requires
            old(self).ok(),
        ensures
            final(self).ok(),
            final(self).same_bytes(old(self)),
            match (r, principal_at(old(self).b@, old(self).at as int)) {
                (Ok(v), Ok((m, next))) => v@ == m && final(self).at == next,
                (Err(e), Err(s)) => e == truncated(s),
                _ => false,
            },
    {
        proof {
            reveal(principal_at);
        }
        let name_type: u32 = match self.u32() {
            Ok(v) => v,
            Err(e) => return Err(e),
        };
        let n: u32 = match self.u32() {
            Ok(v) => v,
            Err(e) => return Err(e),
        };
        let realm = match self.str() {
            Ok(v) => v,
            Err(e) => return Err(e),
        };
        match self.strs(n) {
            Ok(components) => Ok(Principal { name_type, realm, components }),
            Err(e) => Err(e),
        }
    }

    fn key(&mut self) -> (r: Result<(u16, Vec<u8>), CcacheError>)
        requires
            old(self).ok(),
        ensures
            final(self).ok(),
            final(self).same_bytes(old(self)),
            match (r, key_at(old(self).b@, old(self).at as int)) {
                (Ok(v), Ok((m, next))) => v.0 == m.0 && v.1@ == m.1 && final(self).at == next,
                (Err(e), Err(s)) => e == truncated(s),
                _ => false,
            },
    {
        proof {
            reveal(key_at);
        }
        let keytype: u16 = match self.u16() {
            Ok(v) => v,
            Err(e) => return Err(e),
        };
        match self.bytes() {
            Ok(key) => Ok((keytype, key)),
            Err(e) => Err(e),
        }
    }

    fn times(&mut self) -> (r: Result<Times, CcacheError>)
        requires
            old(self).ok(),
        ensures
            final(self).ok(),
            final(self).same_bytes(old(self)),
            match (r, times_at(old(self).b@, old(self).at as int)) {
                (Ok(v), Ok((m, next))) => v == m && final(self).at == next,
                (Err(e), Err(s)) => e == truncated(s),
                _ => false,
            },
    {
        proof {
            reveal(times_at);
        }
        let authtime: u32 = match self.u32() {
            Ok(v) => v,
            Err(e) => return Err(e),
        };
        let starttime: u32 = match self.u32() {
            Ok(v) => v,
            Err(e) => return Err(e),
        };
        let endtime: u32 = match self.u32() {
            Ok(v) => v,
            Err(e) => return Err(e),
        };
        let renew_till: u32 = match self.u32() {
            Ok(v) => v,
            Err(e) => return Err(e),
        };
        match self.take(1) {
            Ok(_) => {},
            Err(e) => return Err(e),
        }
        match self.u32() {
            Ok(flags) => Ok(Times { authtime, starttime, endtime, renew_till, flags }),
            Err(e) => Err(e),
        }
    }

    fn list(&mut self) -> (r: Result<(), CcacheError>)
        requires
            old(self).ok(),
        ensures
            final(self).ok(),
            final(self).same_bytes(old(self)),
            match (r, list_at(old(self).b@, old(self).at as int)) {
                (Ok(_), Ok(next)) => final(self).at == next,
                (Err(e), Err(s)) => e == truncated(s),
                _ => false,
            },
    {
        let n: u32 = match self.u32() {
            Ok(v) => v,
            Err(e) => return Err(e),
        };
        let ghost b = self.b@;
        let ghost at = self.at as int;
        let mut i: u32 = 0;
        while i < n
            invariant
                i <= n,
                self.ok(),
                self.b@ == b,
                b == old(self).b@,
                list_at(b, old(self).at as int) == typed_at(b, at, n as nat),
                typed_at(b, at, i as nat) == Ok::<int, Short>(self.at as int),
            decreases n - i,
        {
            match self.u16() {
                Ok(_) => {},
                Err(e) => {
                    proof {
                        typed_stop(b, at, (i + 1) as nat, n as nat);
                    }
                    return Err(e);
                },
            }
            match self.bytes() {
                Ok(_) => {},
                Err(e) => {
                    proof {
                        typed_stop(b, at, (i + 1) as nat, n as nat);
                    }
                    return Err(e);
                },
            }
            i = i + 1;
        }
        Ok(())
    }

    fn ticket(&mut self) -> (r: Result<Vec<u8>, CcacheError>)
        requires
            old(self).ok(),
        ensures
            final(self).ok(),
            final(self).same_bytes(old(self)),
            match (r, ticket_at(old(self).b@, old(self).at as int)) {
                (Ok(v), Ok((s, next))) => v@ == s && final(self).at == next,
                (Err(e), Err(s)) => e == truncated(s),
                _ => false,
            },
    {
        proof {
            reveal(ticket_at);
        }
        match self.list() {
            Ok(_) => {},
            Err(e) => return Err(e),
        }
        match self.list() {
            Ok(_) => {},
            Err(e) => return Err(e),
        }
        let ticket = match self.bytes() {
            Ok(v) => v,
            Err(e) => return Err(e),
        };
        match self.bytes() {
            Ok(_) => Ok(ticket),
            Err(e) => Err(e),
        }
    }

    fn credential(&mut self) -> (r: Result<Credential, CcacheError>)
        requires
            old(self).ok(),
        ensures
            final(self).ok(),
            final(self).same_bytes(old(self)),
            match (r, credential_at(old(self).b@, old(self).at as int)) {
                (Ok(v), Ok((m, next))) => v@ == m && final(self).at == next,
                (Err(e), Err(s)) => e == truncated(s),
                _ => false,
            },
    {
        proof {
            reveal(credential_at);
        }
        let client = match self.principal() {
            Ok(v) => v,
            Err(e) => return Err(e),
        };
        let server = match self.principal() {
            Ok(v) => v,
            Err(e) => return Err(e),
        };
        let (keytype, key) = match self.key() {
            Ok(v) => v,
            Err(e) => return Err(e),
        };
        let t = match self.times() {
            Ok(v) => v,
            Err(e) => return Err(e),
        };
        match self.ticket() {
            Ok(ticket) => Ok(
                Credential {
                    client,
                    server,
                    keytype,
                    key,
                    authtime: t.authtime,
                    starttime: t.starttime,
                    endtime: t.endtime,
                    renew_till: t.renew_till,
                    flags: t.flags,
                    ticket,
                },
            ),
            Err(e) => Err(e),
        }
    }
}

/// A run of strings that fails after `i` of them fails the same way for any more.
proof fn strs_stop(b: Seq<u8>, at: int, i: nat, n: nat)
    requires
        i <= n,
        strs_at(b, at, i) is Err,
    ensures
        strs_at(b, at, n) == strs_at(b, at, i),
    decreases n,
{
    if i < n {
        strs_stop(b, at, i, (n - 1) as nat);
    }
}

proof fn typed_stop(b: Seq<u8>, at: int, i: nat, n: nat)
    requires
        i <= n,
        typed_at(b, at, i) is Err,
    ensures
        typed_at(b, at, n) == typed_at(b, at, i),
    decreases n,
{
    if i < n {
        typed_stop(b, at, i, (n - 1) as nat);
    }
}

/// Every credential in the cache, in file order.
pub fn credentials(bytes: &[u8]) -> (r: Result<Vec<Credential>, CcacheError>)
    ensures
        match (r, cache_of(bytes@)) {
            (Ok(v), Ok(all)) => models(v@) == all,
            (Err(e), Err(m)) => e == m,
            _ => false,
        },
{
    let mut r = Reader { b: bytes, at: 0 };
    let version: u16 = match r.u16() {
        Ok(v) => v,
        Err(e) => return Err(e),
    };
    if version != VERSION_V4 {
        return Err(CcacheError::Version(version));
    }
    let header_len: u16 = match r.u16() {
        Ok(v) => v,
        Err(e) => return Err(e),
    };
    match r.take(header_len as usize) {
        Ok(_) => {},
        Err(e) => return Err(e),
    }
    match r.principal() {
        Ok(_) => {},
        Err(e) => return Err(e),
    }
    let ghost b = r.b@;
    let ghost whole = credentials_from(b, r.at as int);
    let mut out: Vec<Credential> = Vec::new();
    assert(models(out@) =~= Seq::empty());
    while r.at < r.b.len()
        invariant
            r.ok(),
            r.b@ == b,
            b == bytes@,
            match (whole, credentials_from(b, r.at as int)) {
                (Ok(all), Ok(rest)) => all == models(out@) + rest,
                (Err(e), Err(s)) => e == s,
                _ => false,
            },
            cache_of(b) == (match whole {
                Ok(all) => Ok::<Seq<CredentialModel>, CcacheError>(all),
                Err(e) => Err(truncated(e)),
            }),
        decreases b.len() - r.at,
    {
        let ghost before = models(out@);
        proof {
            law_credentials_advance(b, r.at as int);
        }
        match r.credential() {
            Ok(c) => {
                let ghost m = c@;
                out.push(c);
                assert(models(out@) =~= before.push(m));
                proof {
                    if let Ok(rest) = credentials_from(b, r.at as int) {
                        assert(before + (seq![m] + rest) =~= models(out@) + rest);
                    }
                }
            },
            Err(e) => return Err(e),
        }
    }
    assert(models(out@) + Seq::<CredentialModel>::empty() =~= models(out@));
    Ok(out)
}

/// The `i`-th of `v`'s credentials is the first ticket-granting ticket.
proof fn first_tgt_is(all: Seq<CredentialModel>, i: int)
    requires
        0 <= i < all.len(),
        all[i].is_tgt(),
        forall|k: int| 0 <= k < i ==> !(#[trigger] all[k]).is_tgt(),
    ensures
        first_tgt(all) == Some(all[i]),
    decreases all.len(),
{
    if i > 0 {
        assert(!all[0].is_tgt());
        first_tgt_is(all.drop_first(), i - 1);
    }
}

proof fn first_tgt_none(all: Seq<CredentialModel>)
    requires
        forall|k: int| 0 <= k < all.len() ==> !(#[trigger] all[k]).is_tgt(),
    ensures
        first_tgt(all) is None,
    decreases all.len(),
{
    if all.len() > 0 {
        first_tgt_none(all.drop_first());
    }
}

/// Parse `ccache_bytes`, isolate the TGT, and return it as KRB-CRED + lifetime.
pub fn ccache_to_tgt(ccache_bytes: &[u8]) -> (r: Result<Tgt, CcacheError>)
    ensures
        match cache_of(ccache_bytes@) {
            Err(e) => r == Err::<Tgt, CcacheError>(e),
            Ok(all) => match first_tgt(all) {
                None => r == Err::<Tgt, CcacheError>(CcacheError::NoTgt),
                Some(c) => r matches Ok(t) && t.krbcred@ == krb_cred_of(c) && t.start == c.start()
                    && t.end == c.endtime && t.renew_till == c.renew_till,
            },
        },
{
    let all = match credentials(ccache_bytes) {
        Ok(v) => v,
        Err(e) => return Err(e),
    };
    let mut i: usize = 0;
    while i < all.len()
        invariant
            i <= all@.len(),
            cache_of(ccache_bytes@) == Ok::<Seq<CredentialModel>, CcacheError>(models(all@)),
            forall|k: int| 0 <= k < i ==> !(#[trigger] models(all@)[k]).is_tgt(),
        decreases all@.len() - i,
    {
        if all[i].is_tgt() {
            proof {
                assert(models(all@)[i as int] == all@[i as int]@);
                first_tgt_is(models(all@), i as int);
            }
            let c = &all[i];
            return Ok(
                Tgt {
                    krbcred: krb_cred(c),
                    start: c.start() as i64,
                    end: c.endtime as i64,
                    renew_till: c.renew_till as i64,
                },
            );
        }
        i = i + 1;
    }
    proof {
        first_tgt_none(models(all@));
    }
    Err(CcacheError::NoTgt)
}

/// `c` as [`read_cache`] lists it.
pub open spec fn lists(r: CachedCred, c: CredentialModel) -> bool {
    &&& r.client@ == c.client.text()
    &&& r.server@ == c.server.text()
    &&& r.start == c.start()
    &&& r.end == c.endtime
    &&& r.renew_till == c.renew_till
    &&& r.is_tgt == c.is_tgt()
}

/// Credentials as [`read_cache`] lists them.
pub open spec fn listed(v: Seq<CachedCred>, all: Seq<CredentialModel>) -> bool {
    v.len() == all.len() && forall|i: int| 0 <= i < all.len() ==> lists(#[trigger] v[i], all[i])
}

/// Entries that say the same.
pub open spec fn same_entry(a: CachedCred, b: CachedCred) -> bool {
    &&& a.client@ == b.client@
    &&& a.server@ == b.server@
    &&& a.start == b.start
    &&& a.end == b.end
    &&& a.renew_till == b.renew_till
    &&& a.is_tgt == b.is_tgt
}

/// Every credential in `ccache_bytes`, in file order.
pub fn read_cache(ccache_bytes: &[u8]) -> (r: Result<Vec<CachedCred>, CcacheError>)
    ensures
        match (r, cache_of(ccache_bytes@)) {
            (Ok(v), Ok(all)) => listed(v@, all),
            (Err(e), Err(m)) => e == m,
            _ => false,
        },
{
    let all = match credentials(ccache_bytes) {
        Ok(v) => v,
        Err(e) => return Err(e),
    };
    let mut out: Vec<CachedCred> = Vec::new();
    let mut i: usize = 0;
    while i < all.len()
        invariant
            i <= all@.len(),
            out@.len() == i,
            forall|k: int| 0 <= k < i ==> lists(#[trigger] out@[k], models(all@)[k]),
        decreases all@.len() - i,
    {
        let c = &all[i];
        out.push(
            CachedCred {
                client: c.client.text(),
                server: c.server.text(),
                start: c.start() as i64,
                end: c.endtime as i64,
                renew_till: c.renew_till as i64,
                is_tgt: c.is_tgt(),
            },
        );
        assert(models(all@)[i as int] == all@[i as int]@);
        i = i + 1;
    }
    Ok(out)
}

// ------------------------------------------------------------- KRB-CRED write

/// The whole message: KRB-CRED with an unencrypted enc-part (RFC 4120 5.8.1),
/// the ticket copied into it byte for byte.
pub open spec fn krb_cred_of(c: CredentialModel) -> Seq<u8> {
    der::tlv_of(
        0x76,
        der::tlv_of(
            TAG_SEQUENCE,
            der::ctx_of(0, der::integer_of(5)) + der::ctx_of(1, der::integer_of(22)) + der::ctx_of(
                2,
                der::tlv_of(TAG_SEQUENCE, c.ticket),
            ) + tail_of(c),
        ),
    )
}

/// The last element of the message: what is known of the ticket, in an
/// `EncryptedData` of the null encryption type.
pub open spec fn tail_of(c: CredentialModel) -> Seq<u8> {
    let enc_part = der::tlv_of(
        0x7d,
        der::tlv_of(TAG_SEQUENCE, der::ctx_of(0, der::tlv_of(TAG_SEQUENCE, cred_info_of(c)))),
    );
    der::ctx_of(
        3,
        der::tlv_of(
            TAG_SEQUENCE,
            der::ctx_of(0, der::integer_of(0)) + der::ctx_of(
                2,
                der::tlv_of(TAG_OCTET_STRING, enc_part),
            ),
        ),
    )
}

/// A time that the cache spells 0 when it is absent: left out then, never 1970.
pub open spec fn optional_time_of(n: u8, t: u32) -> Seq<u8> {
    if t != 0 {
        der::ctx_of(n, der::kerberos_time_of(t))
    } else {
        Seq::empty()
    }
}

/// One `KrbCredInfo`: everything about the ticket that is not the ticket.
pub open spec fn cred_info_of(c: CredentialModel) -> Seq<u8> {
    der::tlv_of(
        TAG_SEQUENCE,
        der::ctx_of(
            0,
            der::tlv_of(
                TAG_SEQUENCE,
                der::ctx_of(0, der::integer_of(c.keytype as int)) + der::ctx_of(1, der::tlv_of(TAG_OCTET_STRING, c.key)),
            ),
        ) + der::ctx_of(1, der::general_string_of(c.client.realm)) + der::ctx_of(2, principal_name_of(c.client))
            + der::ctx_of(3, ticket_flags_of(c.flags)) + der::ctx_of(4, der::kerberos_time_of(c.authtime))
            + optional_time_of(5, c.starttime) + der::ctx_of(6, der::kerberos_time_of(c.endtime))
            + optional_time_of(7, c.renew_till) + der::ctx_of(8, der::general_string_of(c.server.realm))
            + der::ctx_of(9, principal_name_of(c.server)),
    )
}

/// The components of a name, each a `GeneralString`, one after another.
pub open spec fn name_strings_of(components: Seq<Seq<char>>) -> Seq<u8>
    decreases components.len(),
{
    if components.len() == 0 {
        Seq::empty()
    } else {
        name_strings_of(components.drop_last()) + der::general_string_of(components.last())
    }
}

/// `PrincipalName ::= SEQUENCE { name-type [0] Int32, name-string [1] SEQUENCE OF }`
pub open spec fn principal_name_of(p: PrincipalModel) -> Seq<u8> {
    der::tlv_of(
        TAG_SEQUENCE,
        der::ctx_of(0, der::integer_of(p.name_type as int)) + der::ctx_of(
            1,
            der::tlv_of(TAG_SEQUENCE, name_strings_of(p.components)),
        ),
    )
}

/// `TicketFlags ::= BIT STRING (SIZE (32..MAX))`: no unused bits, then the 32
/// flags with bit 0 in the most significant position.
pub open spec fn ticket_flags_of(flags: u32) -> Seq<u8> {
    der::tlv_of(TAG_BIT_STRING, seq![0u8] + der::octets_of(flags as nat, 4))
}

/// `a` with `b` after it.
fn put(a: &mut Vec<u8>, b: Vec<u8>)
    ensures
        final(a)@ == old(a)@ + b@,
{
    let mut b = b;
    a.append(&mut b);
}

pub fn krb_cred(c: &Credential) -> (r: Vec<u8>)
    ensures
        r@ == krb_cred_of(c@),
{
    let info = cred_info(c);
    let inner = tlv(TAG_SEQUENCE, &info);
    let enc_part = tlv(0x7d, &tlv(TAG_SEQUENCE, &ctx(0, &inner)));
    let mut encrypted = ctx(0, &integer(0));
    put(&mut encrypted, ctx(2, &tlv(TAG_OCTET_STRING, &enc_part)));
    let mut body = ctx(0, &integer(5));
    put(&mut body, ctx(1, &integer(22)));
    put(&mut body, ctx(2, &tlv(TAG_SEQUENCE, &c.ticket)));
    put(&mut body, ctx(3, &tlv(TAG_SEQUENCE, &encrypted)));
    tlv(0x76, &tlv(TAG_SEQUENCE, &body))
}

pub fn cred_info(c: &Credential) -> (r: Vec<u8>)
    ensures
        r@ == cred_info_of(c@),
{
    let mut key = ctx(0, &integer(c.keytype as i64));
    put(&mut key, ctx(1, &tlv(TAG_OCTET_STRING, &c.key)));
    let mut f = ctx(0, &tlv(TAG_SEQUENCE, &key));
    put(&mut f, ctx(1, &general_string(c.client.realm.as_str())));
    put(&mut f, ctx(2, &principal_name(&c.client)));
    put(&mut f, ctx(3, &ticket_flags(c.flags)));
    put(&mut f, ctx(4, &kerberos_time(c.authtime)));
    if c.starttime != 0 {
        put(&mut f, ctx(5, &kerberos_time(c.starttime)));
    } else {
        assert(f@ + optional_time_of(5, c.starttime) =~= f@);
    }
    put(&mut f, ctx(6, &kerberos_time(c.endtime)));
    if c.renew_till != 0 {
        put(&mut f, ctx(7, &kerberos_time(c.renew_till)));
    } else {
        assert(f@ + optional_time_of(7, c.renew_till) =~= f@);
    }
    put(&mut f, ctx(8, &general_string(c.server.realm.as_str())));
    put(&mut f, ctx(9, &principal_name(&c.server)));
    tlv(TAG_SEQUENCE, &f)
}

pub fn principal_name(p: &Principal) -> (r: Vec<u8>)
    ensures
        r@ == principal_name_of(p@),
{
    let mut names: Vec<u8> = Vec::new();
    let mut i: usize = 0;
    while i < p.components.len()
        invariant
            i <= p.components@.len(),
            names@ == name_strings_of(text::texts(p.components@).take(i as int)),
        decreases p.components@.len() - i,
    {
        proof {
            let t = text::texts(p.components@).take(i + 1);
            assert(t.drop_last() =~= text::texts(p.components@).take(i as int));
            assert(t.last() == p.components@[i as int]@);
        }
        put(&mut names, general_string(p.components[i].as_str()));
        i = i + 1;
    }
    assert(text::texts(p.components@).take(i as int) =~= text::texts(p.components@));
    let mut out = ctx(0, &integer(p.name_type as i64));
    put(&mut out, ctx(1, &tlv(TAG_SEQUENCE, &names)));
    tlv(TAG_SEQUENCE, &out)
}

pub fn ticket_flags(flags: u32) -> (r: Vec<u8>)
    ensures
        r@ == ticket_flags_of(flags),
{
    let mut v: Vec<u8> = vec![0u8];
    put(&mut v, octets(flags as u64, 4));
    assert(v@ =~= seq![0u8] + der::octets_of(flags as nat, 4));
    tlv(TAG_BIT_STRING, &v)
}

// ------------------------------------------------------------------------ laws

/// What stands in the content stands in the encoding around it.
proof fn tlv_keeps(tag: u8, content: Seq<u8>, before: Seq<u8>, x: Seq<u8>, after: Seq<u8>)
    requires
        content == before + x + after,
    ensures
        der::tlv_of(tag, content) == (seq![tag] + der::length_of(content.len()) + before) + x + after,
{
    assert(der::tlv_of(tag, content) =~= (seq![tag] + der::length_of(content.len()) + before) + x + after);
}

/// What stands in the third element of the message stands in the message.
proof fn message_keeps(head: Seq<u8>, ticket: Seq<u8>, tail: Seq<u8>)
    ensures
        exists|before: Seq<u8>, after: Seq<u8>|
            der::tlv_of(
                0x76,
                der::tlv_of(
                    TAG_SEQUENCE,
                    head + der::ctx_of(2, der::tlv_of(TAG_SEQUENCE, ticket)) + tail,
                ),
            ) == #[trigger] (before + ticket + after),
{
    let none = Seq::<u8>::empty();
    assert(ticket =~= none + ticket + none);
    tlv_keeps(TAG_SEQUENCE, ticket, none, ticket, none);
    let a = der::tlv_of(TAG_SEQUENCE, ticket);
    let pre_a = seq![TAG_SEQUENCE] + der::length_of(ticket.len()) + none;
    tlv_keeps(0xa2, a, pre_a, ticket, none);
    let b = der::ctx_of(2, a);
    let pre_b = seq![0xa2u8] + der::length_of(a.len()) + pre_a;
    let body = head + b + tail;
    assert(body =~= (head + pre_b) + ticket + tail);
    tlv_keeps(TAG_SEQUENCE, body, head + pre_b, ticket, tail);
    let inner = der::tlv_of(TAG_SEQUENCE, body);
    let pre_c = seq![TAG_SEQUENCE] + der::length_of(body.len()) + (head + pre_b);
    tlv_keeps(0x76, inner, pre_c, ticket, tail);
    let pre_d = seq![0x76u8] + der::length_of(inner.len()) + pre_c;
    assert(der::tlv_of(0x76, inner) == pre_d + ticket + tail);
}

/// The KDC's own bytes reach the message untouched: whatever stands around it,
/// the ticket stands in the KRB-CRED exactly as the cache held it.
#[verifier::spinoff_prover]
pub proof fn law_ticket_is_carried_verbatim(c: CredentialModel)
    ensures
        exists|before: Seq<u8>, after: Seq<u8>|
            krb_cred_of(c) == #[trigger] (before + c.ticket + after),
{
    let head = der::ctx_of(0, der::integer_of(5)) + der::ctx_of(1, der::integer_of(22));
    message_keeps(head, c.ticket, tail_of(c));
}

/// A cache entry that names the ticket-granting service anywhere but in the
/// two-component form -- the `X-CACHECONF:` entries do, in a third component --
/// is never taken for the ticket, and neither is a cross-realm one.
pub proof fn law_only_the_local_tgt_is_taken(all: Seq<CredentialModel>)
    ensures
        first_tgt(all) matches Some(c) ==> all.contains(c) && c.server.components.len() == 2
            && c.server.components[0] == "krbtgt"@ && c.server.components[1] == c.server.realm,
        first_tgt(all) is None <==> forall|i: int|
            0 <= i < all.len() ==> !(#[trigger] all[i]).is_tgt(),
    decreases all.len(),
{
    if all.len() > 0 && !all[0].is_tgt() {
        law_only_the_local_tgt_is_taken(all.drop_first());
        if let Some(c) = first_tgt(all.drop_first()) {
            let i = choose|i: int|
                0 <= i < all.drop_first().len() && all.drop_first()[i] == c;
            assert(all[i + 1] == c);
        }
        if forall|i: int| 0 <= i < all.len() ==> !(#[trigger] all[i]).is_tgt() {
            assert forall|i: int| 0 <= i < all.drop_first().len() implies !(
            #[trigger] all.drop_first()[i]).is_tgt() by {
                assert(!all[i + 1].is_tgt());
            }
        }
        if forall|i: int|
            0 <= i < all.drop_first().len() ==> !(#[trigger] all.drop_first()[i]).is_tgt() {
            assert forall|i: int| 0 <= i < all.len() implies !(#[trigger] all[i]).is_tgt() by {
                if i > 0 {
                    assert(!all.drop_first()[i - 1].is_tgt());
                }
            }
        }
    } else if all.len() > 0 {
        assert(all[0].is_tgt());
    }
}

// ----------------------------------------------------- reading part of the bytes

/// A result read at `d` bytes further in.
spec fn moved<T>(r: Result<(T, int), Short>, d: int) -> Result<(T, int), Short> {
    match r {
        Ok((v, next)) => Ok((v, next + d)),
        Err(e) => Err(Short { wanted: e.wanted, at: e.at + d }),
    }
}

/// What was read inside some bytes is read there whatever follows them.
spec fn stays<T>(
    short: Result<(T, int), Short>,
    long: Result<(T, int), Short>,
    at: int,
    len: int,
) -> bool {
    short matches Ok((_, next)) ==> at <= next <= len && long == short
}

proof fn take_stays(b: Seq<u8>, t: Seq<u8>, at: int, n: int)
    requires
        0 <= at,
        0 <= n,
    ensures
        stays(take_at(b, at, n), take_at(b + t, at, n), at, b.len() as int),
{
    if at + n <= b.len() {
        assert((b + t).subrange(at, at + n) =~= b.subrange(at, at + n));
    }
}

proof fn take_moves(b: Seq<u8>, e: Seq<u8>, at: int, n: int)
    requires
        0 <= at,
        0 <= n,
    ensures
        take_at(b + e, b.len() + at, n) == moved(take_at(e, at, n), b.len() as int),
{
    if at + n <= e.len() {
        assert((b + e).subrange(b.len() + at, b.len() + at + n) =~= e.subrange(at, at + n));
    }
}

proof fn u16_stays(b: Seq<u8>, t: Seq<u8>, at: int)
    requires
        0 <= at,
    ensures
        stays(u16_at(b, at), u16_at(b + t, at), at, b.len() as int),
{
    take_stays(b, t, at, 2);
}

proof fn u16_moves(b: Seq<u8>, e: Seq<u8>, at: int)
    requires
        0 <= at,
    ensures
        u16_at(b + e, b.len() + at) == moved(u16_at(e, at), b.len() as int),
{
    take_moves(b, e, at, 2);
}

proof fn u32_stays(b: Seq<u8>, t: Seq<u8>, at: int)
    requires
        0 <= at,
    ensures
        stays(u32_at(b, at), u32_at(b + t, at), at, b.len() as int),
{
    take_stays(b, t, at, 4);
}

proof fn u32_moves(b: Seq<u8>, e: Seq<u8>, at: int)
    requires
        0 <= at,
    ensures
        u32_at(b + e, b.len() + at) == moved(u32_at(e, at), b.len() as int),
{
    take_moves(b, e, at, 4);
}

proof fn bytes_stays(b: Seq<u8>, t: Seq<u8>, at: int)
    requires
        0 <= at,
    ensures
        stays(bytes_at(b, at), bytes_at(b + t, at), at, b.len() as int),
{
    u32_stays(b, t, at);
    if let Ok((len, next)) = u32_at(b, at) {
        take_stays(b, t, next, len as int);
    }
}

proof fn bytes_moves(b: Seq<u8>, e: Seq<u8>, at: int)
    requires
        0 <= at,
    ensures
        bytes_at(b + e, b.len() + at) == moved(bytes_at(e, at), b.len() as int),
{
    u32_moves(b, e, at);
    if let Ok((len, next)) = u32_at(e, at) {
        take_moves(b, e, next, len as int);
    }
}

proof fn str_stays(b: Seq<u8>, t: Seq<u8>, at: int)
    requires
        0 <= at,
    ensures
        stays(str_at(b, at), str_at(b + t, at), at, b.len() as int),
{
    bytes_stays(b, t, at);
}

proof fn str_moves(b: Seq<u8>, e: Seq<u8>, at: int)
    requires
        0 <= at,
    ensures
        str_at(b + e, b.len() + at) == moved(str_at(e, at), b.len() as int),
{
    bytes_moves(b, e, at);
}

proof fn strs_stays(b: Seq<u8>, t: Seq<u8>, at: int, n: nat)
    requires
        0 <= at <= b.len(),
    ensures
        stays(strs_at(b, at, n), strs_at(b + t, at, n), at, b.len() as int),
    decreases n,
{
    if n > 0 {
        strs_stays(b, t, at, (n - 1) as nat);
        if let Ok((_, mid)) = strs_at(b, at, (n - 1) as nat) {
            str_stays(b, t, mid);
        }
    }
}

proof fn strs_moves(b: Seq<u8>, e: Seq<u8>, at: int, n: nat)
    requires
        0 <= at,
    ensures
        strs_at(b + e, b.len() + at, n) == moved(strs_at(e, at, n), b.len() as int),
    decreases n,
{
    if n > 0 {
        strs_moves(b, e, at, (n - 1) as nat);
        strs_advance(e, at, (n - 1) as nat);
        if let Ok((_, mid)) = strs_at(e, at, (n - 1) as nat) {
            str_moves(b, e, mid);
        }
    }
}

proof fn principal_stays(b: Seq<u8>, t: Seq<u8>, at: int)
    requires
        0 <= at,
    ensures
        stays(principal_at(b, at), principal_at(b + t, at), at, b.len() as int),
{
    reveal(principal_at);
    u32_stays(b, t, at);
    if let Ok((_, a1)) = u32_at(b, at) {
        u32_stays(b, t, a1);
        if let Ok((n, a2)) = u32_at(b, a1) {
            str_stays(b, t, a2);
            if let Ok((_, a3)) = str_at(b, a2) {
                strs_stays(b, t, a3, n as nat);
            }
        }
    }
}

proof fn principal_moves(b: Seq<u8>, e: Seq<u8>, at: int)
    requires
        0 <= at,
    ensures
        principal_at(b + e, b.len() + at) == moved(principal_at(e, at), b.len() as int),
{
    reveal(principal_at);
    u32_moves(b, e, at);
    if let Ok((_, a1)) = u32_at(e, at) {
        u32_moves(b, e, a1);
        if let Ok((n, a2)) = u32_at(e, a1) {
            str_moves(b, e, a2);
            if let Ok((_, a3)) = str_at(e, a2) {
                strs_moves(b, e, a3, n as nat);
            }
        }
    }
}

proof fn key_stays(b: Seq<u8>, t: Seq<u8>, at: int)
    requires
        0 <= at,
    ensures
        stays(key_at(b, at), key_at(b + t, at), at, b.len() as int),
{
    reveal(key_at);
    u16_stays(b, t, at);
    if let Ok((_, a1)) = u16_at(b, at) {
        bytes_stays(b, t, a1);
    }
}

proof fn key_moves(b: Seq<u8>, e: Seq<u8>, at: int)
    requires
        0 <= at,
    ensures
        key_at(b + e, b.len() + at) == moved(key_at(e, at), b.len() as int),
{
    reveal(key_at);
    u16_moves(b, e, at);
    if let Ok((_, a1)) = u16_at(e, at) {
        bytes_moves(b, e, a1);
    }
}

proof fn times_stays(b: Seq<u8>, t: Seq<u8>, at: int)
    requires
        0 <= at,
    ensures
        stays(times_at(b, at), times_at(b + t, at), at, b.len() as int),
{
    reveal(times_at);
    u32_stays(b, t, at);
    if let Ok((_, a1)) = u32_at(b, at) {
        u32_stays(b, t, a1);
        if let Ok((_, a2)) = u32_at(b, a1) {
            u32_stays(b, t, a2);
            if let Ok((_, a3)) = u32_at(b, a2) {
                u32_stays(b, t, a3);
                if let Ok((_, a4)) = u32_at(b, a3) {
                    take_stays(b, t, a4, 1);
                    if let Ok((_, a5)) = take_at(b, a4, 1) {
                        u32_stays(b, t, a5);
                    }
                }
            }
        }
    }
}

proof fn times_moves(b: Seq<u8>, e: Seq<u8>, at: int)
    requires
        0 <= at,
    ensures
        times_at(b + e, b.len() + at) == moved(times_at(e, at), b.len() as int),
{
    reveal(times_at);
    u32_moves(b, e, at);
    if let Ok((_, a1)) = u32_at(e, at) {
        u32_moves(b, e, a1);
        if let Ok((_, a2)) = u32_at(e, a1) {
            u32_moves(b, e, a2);
            if let Ok((_, a3)) = u32_at(e, a2) {
                u32_moves(b, e, a3);
                if let Ok((_, a4)) = u32_at(e, a3) {
                    take_moves(b, e, a4, 1);
                    if let Ok((_, a5)) = take_at(e, a4, 1) {
                        u32_moves(b, e, a5);
                    }
                }
            }
        }
    }
}

/// A position as a result with nothing else in it.
spec fn to_next(r: Result<int, Short>) -> Result<((), int), Short> {
    match r {
        Ok(next) => Ok(((), next)),
        Err(e) => Err(e),
    }
}

proof fn typed_stays(b: Seq<u8>, t: Seq<u8>, at: int, n: nat)
    requires
        0 <= at <= b.len(),
    ensures
        stays(to_next(typed_at(b, at, n)), to_next(typed_at(b + t, at, n)), at, b.len() as int),
    decreases n,
{
    if n > 0 {
        typed_stays(b, t, at, (n - 1) as nat);
        if let Ok(a1) = typed_at(b, at, (n - 1) as nat) {
            assert(to_next(typed_at(b, at, (n - 1) as nat)) == Ok::<((), int), Short>(((), a1)));
            u16_stays(b, t, a1);
            if let Ok((_, a2)) = u16_at(b, a1) {
                bytes_stays(b, t, a2);
            }
        }
    }
}

proof fn typed_moves(b: Seq<u8>, e: Seq<u8>, at: int, n: nat)
    requires
        0 <= at,
    ensures
        to_next(typed_at(b + e, b.len() + at, n)) == moved(
            to_next(typed_at(e, at, n)),
            b.len() as int,
        ),
    decreases n,
{
    if n > 0 {
        typed_moves(b, e, at, (n - 1) as nat);
        typed_advance(e, at, (n - 1) as nat);
        if let Ok(a1) = typed_at(e, at, (n - 1) as nat) {
            u16_moves(b, e, a1);
            if let Ok((_, a2)) = u16_at(e, a1) {
                bytes_moves(b, e, a2);
            }
        }
    }
}

proof fn list_stays(b: Seq<u8>, t: Seq<u8>, at: int)
    requires
        0 <= at,
    ensures
        stays(to_next(list_at(b, at)), to_next(list_at(b + t, at)), at, b.len() as int),
{
    u32_stays(b, t, at);
    if let Ok((n, a1)) = u32_at(b, at) {
        typed_stays(b, t, a1, n as nat);
    }
}

proof fn list_moves(b: Seq<u8>, e: Seq<u8>, at: int)
    requires
        0 <= at,
    ensures
        to_next(list_at(b + e, b.len() + at)) == moved(to_next(list_at(e, at)), b.len() as int),
{
    u32_moves(b, e, at);
    if let Ok((n, a1)) = u32_at(e, at) {
        typed_moves(b, e, a1, n as nat);
    }
}

proof fn ticket_stays(b: Seq<u8>, t: Seq<u8>, at: int)
    requires
        0 <= at,
    ensures
        stays(ticket_at(b, at), ticket_at(b + t, at), at, b.len() as int),
{
    reveal(ticket_at);
    list_stays(b, t, at);
    if let Ok(a1) = list_at(b, at) {
        assert(to_next(list_at(b, at)) == Ok::<((), int), Short>(((), a1)));
        list_advance(b, at);
        list_stays(b, t, a1);
        if let Ok(a2) = list_at(b, a1) {
            assert(to_next(list_at(b, a1)) == Ok::<((), int), Short>(((), a2)));
            list_advance(b, a1);
            bytes_stays(b, t, a2);
            if let Ok((_, a3)) = bytes_at(b, a2) {
                bytes_stays(b, t, a3);
            }
        }
    }
}

proof fn ticket_moves(b: Seq<u8>, e: Seq<u8>, at: int)
    requires
        0 <= at,
    ensures
        ticket_at(b + e, b.len() + at) == moved(ticket_at(e, at), b.len() as int),
{
    reveal(ticket_at);
    list_moves(b, e, at);
    if let Ok(a1) = list_at(e, at) {
        assert(to_next(list_at(e, at)) == Ok::<((), int), Short>(((), a1)));
        list_advance(e, at);
        list_moves(b, e, a1);
        if let Ok(a2) = list_at(e, a1) {
            assert(to_next(list_at(e, a1)) == Ok::<((), int), Short>(((), a2)));
            list_advance(e, a1);
            bytes_moves(b, e, a2);
            if let Ok((_, a3)) = bytes_at(e, a2) {
                bytes_moves(b, e, a3);
            }
        }
    }
}

proof fn credential_stays(b: Seq<u8>, t: Seq<u8>, at: int)
    requires
        0 <= at,
    ensures
        stays(credential_at(b, at), credential_at(b + t, at), at, b.len() as int),
{
    reveal(credential_at);
    principal_stays(b, t, at);
    principal_advance(b, at);
    if let Ok((_, a1)) = principal_at(b, at) {
        principal_stays(b, t, a1);
        principal_advance(b, a1);
        if let Ok((_, a2)) = principal_at(b, a1) {
            key_stays(b, t, a2);
            if let Ok((_, a3)) = key_at(b, a2) {
                times_stays(b, t, a3);
                if let Ok((_, a4)) = times_at(b, a3) {
                    ticket_stays(b, t, a4);
                }
            }
        }
    }
}

proof fn credential_moves(b: Seq<u8>, e: Seq<u8>, at: int)
    requires
        0 <= at,
    ensures
        credential_at(b + e, b.len() + at) == moved(credential_at(e, at), b.len() as int),
{
    reveal(credential_at);
    principal_moves(b, e, at);
    principal_advance(e, at);
    if let Ok((_, a1)) = principal_at(e, at) {
        principal_moves(b, e, a1);
        principal_advance(e, a1);
        if let Ok((_, a2)) = principal_at(e, a1) {
            key_moves(b, e, a2);
            if let Ok((_, a3)) = key_at(e, a2) {
                key_stays(e, Seq::empty(), a2);
                times_moves(b, e, a3);
                if let Ok((_, a4)) = times_at(e, a3) {
                    times_stays(e, Seq::empty(), a3);
                    ticket_moves(b, e, a4);
                }
            }
        }
    }
}

/// Bytes that are one credential, whole and nothing more.
pub open spec fn is_credential(e: Seq<u8>, c: CredentialModel) -> bool {
    credential_at(e, 0) == Ok::<(CredentialModel, int), Short>((c, e.len() as int))
}

/// No part of a credential is one.
proof fn part_is_no_credential(e: Seq<u8>, c: CredentialModel, n: int)
    requires
        is_credential(e, c),
        0 <= n < e.len(),
    ensures
        credential_at(e.take(n), 0) is Err,
{
    let q = e.take(n);
    assert(q + e.skip(n) =~= e);
    credential_stays(q, e.skip(n), 0);
}

/// What follows a cache is read after what is in it.
proof fn credentials_go_on(b: Seq<u8>, t: Seq<u8>, at: int)
    requires
        0 <= at <= b.len(),
        credentials_from(b, at) is Ok,
    ensures
        credentials_from(b + t, at) == (match credentials_from(b + t, b.len() as int) {
            Ok(more) => Ok::<Seq<CredentialModel>, Short>(credentials_from(b, at)->Ok_0 + more),
            Err(e) => Err::<Seq<CredentialModel>, Short>(e),
        }),
    decreases b.len() - at,
{
    let whole = b + t;
    if at == b.len() {
        if let Ok(more) = credentials_from(whole, at) {
            assert(Seq::<CredentialModel>::empty() + more =~= more);
        }
    } else {
        credential_stays(b, t, at);
        law_credentials_advance(b, at);
        let (c, next) = credential_at(b, at)->Ok_0;
        credentials_go_on(b, t, next);
        if let Ok(more) = credentials_from(whole, b.len() as int) {
            let rest = credentials_from(b, next)->Ok_0;
            assert(seq![c] + (rest + more) =~= (seq![c] + rest) + more);
        }
    }
}

/// A cache grows by appending: one whole credential more is read after all the others, and
/// nothing short of a whole one is read at all.
pub proof fn law_a_cache_grows_by_whole_credentials(b: Seq<u8>, e: Seq<u8>, c: CredentialModel)
    requires
        cache_of(b) is Ok,
        is_credential(e, c),
    ensures
        cache_of(b + e) == Ok::<Seq<CredentialModel>, CcacheError>(cache_of(b)->Ok_0.push(c)),
        forall|n: int| 0 < n < e.len() ==> cache_of(b + #[trigger] e.take(n)) is Err,
{
    law_credentials_advance(e, 0);
    credential_moves(b, e, 0);
    cache_goes_on(b, e);
    assert(credentials_from(b + e, (b + e).len() as int) == Ok::<Seq<CredentialModel>, Short>(
        Seq::empty(),
    ));
    assert(seq![c] + Seq::<CredentialModel>::empty() =~= seq![c]);
    assert(cache_of(b)->Ok_0 + seq![c] =~= cache_of(b)->Ok_0.push(c));
    assert forall|n: int| 0 < n < e.len() implies cache_of(b + #[trigger] e.take(n)) is Err by {
        part_is_no_credential(e, c, n);
        credential_moves(b, e.take(n), 0);
        cache_goes_on(b, e.take(n));
    }
}

/// Bytes after a cache are read as credentials after those in it.
proof fn cache_goes_on(b: Seq<u8>, t: Seq<u8>)
    requires
        cache_of(b) is Ok,
    ensures
        cache_of(b + t) == (match credentials_from(b + t, b.len() as int) {
            Ok(more) => Ok::<Seq<CredentialModel>, CcacheError>(cache_of(b)->Ok_0 + more),
            Err(e) => Err::<Seq<CredentialModel>, CcacheError>(truncated(e)),
        }),
{
    u16_stays(b, t, 0);
    let (_, a1) = u16_at(b, 0)->Ok_0;
    u16_stays(b, t, a1);
    let (header_len, a2) = u16_at(b, a1)->Ok_0;
    take_stays(b, t, a2, header_len as int);
    let (_, a3) = take_at(b, a2, header_len as int)->Ok_0;
    principal_stays(b, t, a3);
    let (_, a4) = principal_at(b, a3)->Ok_0;
    credentials_go_on(b, t, a4);
}

/// A cache that lists as `before` lists one entry more when a whole credential is
/// appended to it, and the others as they were.
pub proof fn law_an_appended_credential_is_listed_last(
    b: Seq<u8>,
    e: Seq<u8>,
    c: CredentialModel,
    before: Seq<CachedCred>,
    after: Seq<CachedCred>,
)
    requires
        cache_of(b) matches Ok(all) && listed(before, all),
        is_credential(e, c),
        cache_of(b + e) matches Ok(all) && listed(after, all),
    ensures
        after.len() == before.len() + 1,
        lists(after[after.len() - 1], c),
        forall|i: int| 0 <= i < before.len() ==> same_entry(#[trigger] after[i], before[i]),
{
    law_a_cache_grows_by_whole_credentials(b, e, c);
    let all = cache_of(b)->Ok_0;
    assert forall|i: int| 0 <= i < before.len() implies same_entry(#[trigger] after[i], before[i]) by {
        assert(lists(after[i], all.push(c)[i]));
        assert(lists(before[i], all[i]));
    }
    assert(lists(after[all.len() as int], all.push(c)[all.len() as int]));
}

// ----------------------------------------------------------- reading the message

/// A name as a reader of the message finds it.
#[verifier::ext_equal]
pub struct NameRead {
    pub name_type: int,
    pub strings: Seq<Seq<u8>>,
}

/// A `KrbCredInfo` as a reader of the message finds it.
#[verifier::ext_equal]
pub struct InfoRead {
    pub keytype: int,
    pub key: Seq<u8>,
    pub client_realm: Seq<u8>,
    pub client: NameRead,
    pub flags: nat,
    pub authtime: int,
    pub starttime: Option<int>,
    pub endtime: int,
    pub renew_till: Option<int>,
    pub server_realm: Seq<u8>,
    pub server: NameRead,
}

/// The content of the member `[n]` at the start of some bytes, and what follows it.
pub open spec fn member_in(b: Seq<u8>, n: int) -> Option<(Seq<u8>, Seq<u8>)> {
    der::tagged(b, (0xa0 + n) as u8)
}

/// An `INTEGER`.
pub open spec fn number_in(content: Seq<u8>) -> Option<int> {
    match der::only(content, 0x02) {
        Some(s) => Some(der::signed(s)),
        None => None,
    }
}

/// The strings of a name: one `GeneralString` after another.
pub open spec fn strings_in(b: Seq<u8>) -> Option<Seq<Seq<u8>>>
    decreases b.len(),
{
    if b.len() == 0 {
        Some(Seq::empty())
    } else {
        match der::tagged(b, 0x1b) {
            Some((s, rest)) if rest.len() < b.len() => match strings_in(rest) {
                Some(more) => Some(seq![s] + more),
                None => None,
            },
            _ => None,
        }
    }
}

/// `SEQUENCE { [0] INTEGER, [1] SEQUENCE OF GeneralString }`.
pub open spec fn name_in(content: Seq<u8>) -> Option<NameRead> {
    match der::only(content, 0x30) {
        None => None,
        Some(b) => match member_in(b, 0) {
            None => None,
            Some((t, b)) => match (number_in(t), member_in(b, 1)) {
                (Some(name_type), Some((s, b))) => match der::only(s, 0x30) {
                    Some(list) => match strings_in(list) {
                        Some(strings) if b.len() == 0 => Some(NameRead { name_type, strings }),
                        _ => None,
                    },
                    None => None,
                },
                _ => None,
            },
        },
    }
}

/// `SEQUENCE { [0] INTEGER, [1] OCTET STRING }`: an `EncryptionKey`.
pub open spec fn encryption_key_in(content: Seq<u8>) -> Option<(int, Seq<u8>)> {
    match der::only(content, 0x30) {
        None => None,
        Some(b) => match member_in(b, 0) {
            None => None,
            Some((t, b)) => match (number_in(t), member_in(b, 1)) {
                (Some(keytype), Some((k, b))) => match der::only(k, 0x04) {
                    Some(key) if b.len() == 0 => Some((keytype, key)),
                    _ => None,
                },
                _ => None,
            },
        },
    }
}

/// A `BIT STRING` of 32 bits, none of them unused.
pub open spec fn flags_in(content: Seq<u8>) -> Option<nat> {
    match der::only(content, 0x03) {
        Some(s) if s.len() == 5 && s[0] == 0 => Some(der::spelled(s.skip(1))),
        _ => None,
    }
}

/// A time that may be left out.
pub open spec fn optional_time_in(b: Seq<u8>, n: int) -> Option<(Option<int>, Seq<u8>)> {
    match member_in(b, n) {
        None => Some((None, b)),
        Some((t, rest)) => match der::time_in(t) {
            Some(unix) => Some((Some(unix), rest)),
            None => None,
        },
    }
}

/// What a `KrbCredInfo` says of the key, the client and the flags, and what follows.
pub open spec fn first_half_in(b: Seq<u8>) -> Option<
    ((int, Seq<u8>), Seq<u8>, NameRead, nat, Seq<u8>),
> {
    match member_in(b, 0) {
        None => None,
        Some((k, b)) => match (encryption_key_in(k), member_in(b, 1)) {
            (Some(key), Some((r, b))) => match (der::only(r, 0x1b), member_in(b, 2)) {
                (Some(realm), Some((n, b))) => match (name_in(n), member_in(b, 3)) {
                    (Some(name), Some((f, b))) => match flags_in(f) {
                        Some(flags) => Some((key, realm, name, flags, b)),
                        None => None,
                    },
                    _ => None,
                },
                _ => None,
            },
            _ => None,
        },
    }
}

/// Its four times, two of which may be left out, and what follows.
pub open spec fn times_in(b: Seq<u8>) -> Option<(int, Option<int>, int, Option<int>, Seq<u8>)> {
    match member_in(b, 4) {
        None => None,
        Some((a, b)) => match (der::time_in(a), optional_time_in(b, 5)) {
            (Some(auth), Some((start, b))) => match member_in(b, 6) {
                None => None,
                Some((e, b)) => match (der::time_in(e), optional_time_in(b, 7)) {
                    (Some(end), Some((renew, b))) => Some((auth, start, end, renew, b)),
                    _ => None,
                },
            },
            _ => None,
        },
    }
}

/// Its server, and nothing after that.
pub open spec fn server_in(b: Seq<u8>) -> Option<(Seq<u8>, NameRead)> {
    match member_in(b, 8) {
        None => None,
        Some((r, b)) => match (der::only(r, 0x1b), member_in(b, 9)) {
            (Some(realm), Some((n, b))) => match name_in(n) {
                Some(name) if b.len() == 0 => Some((realm, name)),
                _ => None,
            },
            _ => None,
        },
    }
}

/// A whole `KrbCredInfo`.
pub open spec fn info_in(content: Seq<u8>) -> Option<InfoRead> {
    match der::only(content, 0x30) {
        None => None,
        Some(b) => match first_half_in(b) {
            None => None,
            Some(((keytype, key), client_realm, client, flags, b)) => match times_in(b) {
                None => None,
                Some((authtime, starttime, endtime, renew_till, b)) => match server_in(b) {
                    None => None,
                    Some((server_realm, server)) => Some(
                        InfoRead {
                            keytype,
                            key,
                            client_realm,
                            client,
                            flags,
                            authtime,
                            starttime,
                            endtime,
                            renew_till,
                            server_realm,
                            server,
                        },
                    ),
                },
            },
        },
    }
}

/// What an `EncryptedData` of the null encryption type holds.
pub open spec fn plaintext_in(content: Seq<u8>) -> Option<Seq<u8>> {
    match der::only(content, 0x30) {
        None => None,
        Some(b) => match member_in(b, 0) {
            None => None,
            Some((t, b)) => match member_in(b, 2) {
                Some((cipher, b)) if number_in(t) == Some(0int) && b.len() == 0 => der::only(
                    cipher,
                    0x04,
                ),
                _ => None,
            },
        },
    }
}

/// The one `KrbCredInfo` of an `EncKrbCredPart`.
pub open spec fn only_info_in(part: Seq<u8>) -> Option<InfoRead> {
    match der::only(part, 0x7d) {
        None => None,
        Some(s) => match der::only(s, 0x30) {
            None => None,
            Some(b) => match member_in(b, 0) {
                Some((list, b)) if b.len() == 0 => match der::only(list, 0x30) {
                    Some(info) => info_in(info),
                    None => None,
                },
                _ => None,
            },
        },
    }
}

/// A KRB-CRED message: the ticket it carries and what it says of it.
pub open spec fn message_in(m: Seq<u8>) -> Option<(Seq<u8>, InfoRead)> {
    match der::only(m, 0x76) {
        None => None,
        Some(s) => match der::only(s, 0x30) {
            None => None,
            Some(b) => match member_in(b, 0) {
                None => None,
                Some((v, b)) => match member_in(b, 1) {
                    None => None,
                    Some((t, b)) => match member_in(b, 2) {
                        None => None,
                        Some((tickets, b)) => match member_in(b, 3) {
                            Some((enc, b)) if number_in(v) == Some(5int) && number_in(t) == Some(
                                22int,
                            ) && b.len() == 0 => match (der::only(tickets, 0x30), plaintext_in(enc)) {
                                (Some(ticket), Some(part)) => match only_info_in(part) {
                                    Some(info) => Some((ticket, info)),
                                    None => None,
                                },
                                _ => None,
                            },
                            _ => None,
                        },
                    },
                },
            },
        },
    }
}

/// A name that a reader finds where `p` was written.
pub open spec fn reads_as_name(n: NameRead, p: PrincipalModel) -> bool {
    &&& n.name_type == p.name_type
    &&& n.strings.len() == p.components.len()
    &&& forall|i: int|
        0 <= i < p.components.len() ==> #[trigger] n.strings[i] == encode_utf8(p.components[i])
}

/// A `KrbCredInfo` that a reader finds where `c` was written.
pub open spec fn reads_as(i: InfoRead, c: CredentialModel) -> bool {
    &&& i.keytype == c.keytype
    &&& i.key == c.key
    &&& i.client_realm == encode_utf8(c.client.realm)
    &&& reads_as_name(i.client, c.client)
    &&& i.flags == c.flags
    &&& i.authtime == c.authtime
    &&& i.starttime == (if c.starttime == 0 {
        None
    } else {
        Some(c.starttime as int)
    })
    &&& i.endtime == c.endtime
    &&& i.renew_till == (if c.renew_till == 0 {
        None
    } else {
        Some(c.renew_till as int)
    })
    &&& i.server_realm == encode_utf8(c.server.realm)
    &&& reads_as_name(i.server, c.server)
}

proof fn element_is_longer(tag: u8, content: Seq<u8>)
    ensures
        der::tlv_of(tag, content).len() >= content.len() + 2,
{
}

proof fn only_reads(tag: u8, content: Seq<u8>)
    requires
        content.len() <= u64::MAX,
    ensures
        der::only(der::tlv_of(tag, content), tag) == Some(content),
{
    der::law_an_element_reads_back(tag, content, Seq::empty());
    assert(der::tlv_of(tag, content) + Seq::<u8>::empty() =~= der::tlv_of(tag, content));
}

proof fn member_reads(n: u8, content: Seq<u8>, rest: Seq<u8>)
    requires
        n < 0x20,
        content.len() <= u64::MAX,
    ensures
        member_in(der::ctx_of(n, content) + rest, n as int) == Some((content, rest)),
        forall|k: int| 0 <= k < 0x20 && k != n ==> (#[trigger] member_in(
            der::ctx_of(n, content) + rest,
            k,
        )) is None,
{
    der::law_an_element_reads_back((0xa0 + n) as u8, content, rest);
}

proof fn number_reads(v: int)
    requires
        i64::MIN <= v <= i64::MAX,
    ensures
        number_in(der::integer_of(v)) == Some(v),
        der::integer_of(v).len() <= u64::MAX,
{
    der::law_integers_read_back(v);
    only_reads(0x02, der::integer_content_of(v));
}

proof fn last_member_reads(n: u8, content: Seq<u8>)
    requires
        n < 0x20,
        content.len() <= u64::MAX,
    ensures
        member_in(der::ctx_of(n, content), n as int) == Some((content, Seq::<u8>::empty())),
{
    member_reads(n, content, Seq::empty());
    assert(der::ctx_of(n, content) + Seq::<u8>::empty() =~= der::ctx_of(n, content));
}

proof fn first_string_first(s: Seq<Seq<char>>)
    requires
        s.len() > 0,
    ensures
        name_strings_of(s) == der::general_string_of(s[0]) + name_strings_of(s.skip(1)),
    decreases s.len(),
{
    if s.len() == 1 {
        assert(s.drop_last() =~= Seq::empty());
        assert(s.skip(1) =~= Seq::empty());
        assert(name_strings_of(s) =~= der::general_string_of(s[0]) + name_strings_of(s.skip(1)));
    } else {
        first_string_first(s.drop_last());
        assert(s.drop_last().skip(1) =~= s.skip(1).drop_last());
        assert(s.skip(1).last() == s.last());
        assert(name_strings_of(s) =~= der::general_string_of(s[0]) + name_strings_of(s.skip(1)));
    }
}

proof fn strings_read(s: Seq<Seq<char>>)
    requires
        name_strings_of(s).len() <= u64::MAX,
    ensures
        strings_in(name_strings_of(s)) == Some(
            Seq::new(s.len(), |i: int| encode_utf8(s[i])),
        ),
    decreases s.len(),
{
    let want = Seq::new(s.len(), |i: int| encode_utf8(s[i]));
    if s.len() == 0 {
        assert(want =~= Seq::empty());
    } else {
        first_string_first(s);
        let head = encode_utf8(s[0]);
        let rest = name_strings_of(s.skip(1));
        element_is_longer(0x1b, head);
        strings_read(s.skip(1));
        der::law_an_element_reads_back(0x1b, head, rest);
        assert(seq![head] + Seq::new(s.skip(1).len(), |i: int| encode_utf8(s.skip(1)[i])) =~= want);
    }
}

proof fn name_reads(p: PrincipalModel)
    requires
        principal_name_of(p).len() <= u64::MAX,
    ensures
        name_in(principal_name_of(p)) matches Some(n) && reads_as_name(n, p),
{
    let number = der::integer_of(p.name_type as int);
    let names = name_strings_of(p.components);
    let list = der::tlv_of(TAG_SEQUENCE, names);
    let b = der::ctx_of(0, number) + der::ctx_of(1, list);
    element_is_longer(TAG_SEQUENCE, b);
    element_is_longer(0xa1, list);
    element_is_longer(TAG_SEQUENCE, names);
    only_reads(TAG_SEQUENCE, b);
    number_reads(p.name_type as int);
    member_reads(0, number, der::ctx_of(1, list));
    last_member_reads(1, list);
    only_reads(TAG_SEQUENCE, names);
    strings_read(p.components);
}

/// The key as the message carries it.
pub open spec fn encryption_key_of(c: CredentialModel) -> Seq<u8> {
    der::tlv_of(
        0x30,
        der::ctx_of(0, der::integer_of(c.keytype as int)) + der::ctx_of(
            1,
            der::tlv_of(0x04, c.key),
        ),
    )
}

proof fn encryption_key_reads(c: CredentialModel)
    requires
        encryption_key_of(c).len() <= u64::MAX,
    ensures
        encryption_key_in(encryption_key_of(c)) == Some((c.keytype as int, c.key)),
{
    let number = der::integer_of(c.keytype as int);
    let octets = der::tlv_of(0x04, c.key);
    let b = der::ctx_of(0, number) + der::ctx_of(1, octets);
    element_is_longer(0x30, b);
    element_is_longer(0xa1, octets);
    element_is_longer(0x04, c.key);
    only_reads(0x30, b);
    number_reads(c.keytype as int);
    member_reads(0, number, der::ctx_of(1, octets));
    last_member_reads(1, octets);
    only_reads(0x04, c.key);
}

proof fn flags_read(flags: u32)
    ensures
        flags_in(ticket_flags_of(flags)) == Some(flags as nat),
        ticket_flags_of(flags).len() <= u64::MAX,
{
    reveal_with_fuel(der::pow256, 5);
    der::law_octets_read_back(flags as nat, 4);
    let s = seq![0u8] + der::octets_of(flags as nat, 4);
    only_reads(0x03, s);
    assert(s.skip(1) =~= der::octets_of(flags as nat, 4));
}

proof fn optional_time_reads(n: u8, t: u32, m: u8, after: Seq<u8>, rest: Seq<u8>)
    requires
        n < m < 0x20,
        after.len() <= u64::MAX,
    ensures
        optional_time_in(
            optional_time_of(n, t) + (der::ctx_of(m, after) + rest),
            n as int,
        ) == Some(
            (
                if t == 0 {
                    None
                } else {
                    Some(t as int)
                },
                der::ctx_of(m, after) + rest,
            ),
        ),
{
    let next = der::ctx_of(m, after) + rest;
    if t == 0 {
        assert(optional_time_of(n, t) + next =~= next);
        member_reads(m, after, rest);
        assert(member_in(next, n as int) is None);
    } else {
        der::law_a_time_reads_back(t);
        member_reads(n, der::kerberos_time_of(t), next);
    }
}

/// The first four members of a `KrbCredInfo`, in front of the rest.
proof fn first_half_reads(c: CredentialModel, rest: Seq<u8>)
    requires
        encryption_key_of(c).len() <= u64::MAX,
        encode_utf8(c.client.realm).len() <= u64::MAX,
        der::general_string_of(c.client.realm).len() <= u64::MAX,
        principal_name_of(c.client).len() <= u64::MAX,
    ensures
        first_half_in(
            der::ctx_of(0, encryption_key_of(c)) + (der::ctx_of(
                1,
                der::general_string_of(c.client.realm),
            ) + (der::ctx_of(2, principal_name_of(c.client)) + (der::ctx_of(
                3,
                ticket_flags_of(c.flags),
            ) + rest))),
        ) matches Some((key, realm, name, flags, b)) && key == (c.keytype as int, c.key) && realm
            == encode_utf8(c.client.realm) && reads_as_name(name, c.client) && flags == c.flags
            && b == rest,
{
    let r3 = der::ctx_of(3, ticket_flags_of(c.flags)) + rest;
    let r2 = der::ctx_of(2, principal_name_of(c.client)) + r3;
    let r1 = der::ctx_of(1, der::general_string_of(c.client.realm)) + r2;
    encryption_key_reads(c);
    flags_read(c.flags);
    name_reads(c.client);
    only_reads(0x1b, encode_utf8(c.client.realm));
    member_reads(0, encryption_key_of(c), r1);
    member_reads(1, der::general_string_of(c.client.realm), r2);
    member_reads(2, principal_name_of(c.client), r3);
    member_reads(3, ticket_flags_of(c.flags), rest);
}

/// Its four times, in front of the server's realm.
proof fn times_read(c: CredentialModel, realm: Seq<u8>, rest: Seq<u8>)
    requires
        realm.len() <= u64::MAX,
    ensures
        times_in(
            der::ctx_of(4, der::kerberos_time_of(c.authtime)) + (optional_time_of(5, c.starttime) + (
            der::ctx_of(6, der::kerberos_time_of(c.endtime)) + (optional_time_of(7, c.renew_till) + (
            der::ctx_of(8, realm) + rest)))),
        ) == Some(
            (
                c.authtime as int,
                if c.starttime == 0 {
                    None
                } else {
                    Some(c.starttime as int)
                },
                c.endtime as int,
                if c.renew_till == 0 {
                    None
                } else {
                    Some(c.renew_till as int)
                },
                der::ctx_of(8, realm) + rest,
            ),
        ),
{
    let r8 = der::ctx_of(8, realm) + rest;
    let r7 = optional_time_of(7, c.renew_till) + r8;
    let end = der::kerberos_time_of(c.endtime);
    let r6 = der::ctx_of(6, end) + r7;
    let r5 = optional_time_of(5, c.starttime) + r6;
    der::law_a_time_reads_back(c.authtime);
    der::law_a_time_reads_back(c.endtime);
    member_reads(4, der::kerberos_time_of(c.authtime), r5);
    optional_time_reads(5, c.starttime, 6, end, r7);
    member_reads(6, end, r7);
    optional_time_reads(7, c.renew_till, 8, realm, rest);
}

proof fn server_reads(p: PrincipalModel)
    requires
        encode_utf8(p.realm).len() <= u64::MAX,
        der::general_string_of(p.realm).len() <= u64::MAX,
        principal_name_of(p).len() <= u64::MAX,
    ensures
        server_in(
            der::ctx_of(8, der::general_string_of(p.realm)) + der::ctx_of(9, principal_name_of(p)),
        ) matches Some((realm, name)) && realm == encode_utf8(p.realm) && reads_as_name(name, p),
{
    name_reads(p);
    only_reads(0x1b, encode_utf8(p.realm));
    member_reads(8, der::general_string_of(p.realm), der::ctx_of(9, principal_name_of(p)));
    last_member_reads(9, principal_name_of(p));
}

/// Three in a row, grouped the other way.
proof fn regroup(a: Seq<u8>, b: Seq<u8>, c: Seq<u8>)
    ensures
        (a + b) + c == a + (b + c),
{
    assert((a + b) + c =~= a + (b + c));
}

/// The members of a `KrbCredInfo`, grouped from the front.
proof fn info_from_the_front(c: CredentialModel) -> (r: (Seq<u8>, Seq<u8>))
    ensures
        ({
            let f0 = der::ctx_of(0, encryption_key_of(c));
            let f1 = der::ctx_of(1, der::general_string_of(c.client.realm));
            let f2 = der::ctx_of(2, principal_name_of(c.client));
            let f3 = der::ctx_of(3, ticket_flags_of(c.flags));
            let f4 = der::ctx_of(4, der::kerberos_time_of(c.authtime));
            let f5 = optional_time_of(5, c.starttime);
            let f6 = der::ctx_of(6, der::kerberos_time_of(c.endtime));
            let f7 = optional_time_of(7, c.renew_till);
            let f8 = der::ctx_of(8, der::general_string_of(c.server.realm));
            let f9 = der::ctx_of(9, principal_name_of(c.server));
            &&& r.1 == f4 + (f5 + (f6 + (f7 + (f8 + f9))))
            &&& r.0 == f0 + (f1 + (f2 + (f3 + r.1)))
            &&& cred_info_of(c) == der::tlv_of(0x30, r.0)
        }),
{
    let f0 = der::ctx_of(0, encryption_key_of(c));
    let f1 = der::ctx_of(1, der::general_string_of(c.client.realm));
    let f2 = der::ctx_of(2, principal_name_of(c.client));
    let f3 = der::ctx_of(3, ticket_flags_of(c.flags));
    let f4 = der::ctx_of(4, der::kerberos_time_of(c.authtime));
    let f5 = optional_time_of(5, c.starttime);
    let f6 = der::ctx_of(6, der::kerberos_time_of(c.endtime));
    let f7 = optional_time_of(7, c.renew_till);
    let f8 = der::ctx_of(8, der::general_string_of(c.server.realm));
    let f9 = der::ctx_of(9, principal_name_of(c.server));
    let all = f0 + f1 + f2 + f3 + f4 + f5 + f6 + f7 + f8 + f9;
    assert(cred_info_of(c) == der::tlv_of(0x30, all));
    let r8 = f8 + f9;
    let r7 = f7 + r8;
    let r6 = f6 + r7;
    let r5 = f5 + r6;
    let r4 = f4 + r5;
    let r3 = f3 + r4;
    let r2 = f2 + r3;
    let r1 = f1 + r2;
    regroup(f0 + f1 + f2 + f3 + f4 + f5 + f6 + f7, f8, f9);
    regroup(f0 + f1 + f2 + f3 + f4 + f5 + f6, f7, r8);
    regroup(f0 + f1 + f2 + f3 + f4 + f5, f6, r7);
    regroup(f0 + f1 + f2 + f3 + f4, f5, r6);
    regroup(f0 + f1 + f2 + f3, f4, r5);
    regroup(f0 + f1 + f2, f3, r4);
    regroup(f0 + f1, f2, r3);
    regroup(f0, f1, r2);
    assert(all == f0 + r1);
    (f0 + r1, r4)
}

/// What a `KrbCredInfo` says is what the credential says: an independent reader of the
/// grammar gets back the key and its type, both principals, the flags and the times, with
/// the two times left out that the cache has none of.
pub proof fn law_a_cred_info_reads_back(c: CredentialModel)
    requires
        cred_info_of(c).len() <= u64::MAX,
    ensures
        info_in(cred_info_of(c)) matches Some(i) && reads_as(i, c),
{
    let (body, times) = info_from_the_front(c);
    let key = encryption_key_of(c);
    let crealm = der::general_string_of(c.client.realm);
    let cname = principal_name_of(c.client);
    let srealm = der::general_string_of(c.server.realm);
    let sname = principal_name_of(c.server);
    element_is_longer(0x30, body);
    element_is_longer(0xa0, key);
    element_is_longer(0xa1, crealm);
    element_is_longer(0x1b, encode_utf8(c.client.realm));
    element_is_longer(0xa2, cname);
    element_is_longer(0xa8, srealm);
    element_is_longer(0x1b, encode_utf8(c.server.realm));
    element_is_longer(0xa9, sname);
    only_reads(0x30, body);
    first_half_reads(c, times);
    times_read(c, srealm, der::ctx_of(9, sname));
    server_reads(c.server);
}

proof fn part_reads(c: CredentialModel, part: Seq<u8>)
    requires
        part == der::tlv_of(
            0x7d,
            der::tlv_of(TAG_SEQUENCE, der::ctx_of(0, der::tlv_of(TAG_SEQUENCE, cred_info_of(c)))),
        ),
        part.len() <= u64::MAX,
    ensures
        only_info_in(part) matches Some(i) && reads_as(i, c),
{
    let info = cred_info_of(c);
    let list = der::tlv_of(TAG_SEQUENCE, info);
    let b = der::ctx_of(0, list);
    let s = der::tlv_of(TAG_SEQUENCE, b);
    element_is_longer(0x7d, s);
    element_is_longer(TAG_SEQUENCE, b);
    element_is_longer(0xa0, list);
    element_is_longer(TAG_SEQUENCE, info);
    only_reads(0x7d, s);
    only_reads(TAG_SEQUENCE, b);
    last_member_reads(0, list);
    only_reads(TAG_SEQUENCE, info);
    law_a_cred_info_reads_back(c);
}

proof fn plaintext_reads(part: Seq<u8>, enc: Seq<u8>)
    requires
        enc == der::tlv_of(
            TAG_SEQUENCE,
            der::ctx_of(0, der::integer_of(0)) + der::ctx_of(
                2,
                der::tlv_of(TAG_OCTET_STRING, part),
            ),
        ),
        enc.len() <= u64::MAX,
    ensures
        plaintext_in(enc) == Some(part),
        part.len() <= u64::MAX,
{
    let cipher = der::tlv_of(TAG_OCTET_STRING, part);
    let b = der::ctx_of(0, der::integer_of(0)) + der::ctx_of(2, cipher);
    element_is_longer(TAG_SEQUENCE, b);
    element_is_longer(0xa2, cipher);
    element_is_longer(TAG_OCTET_STRING, part);
    only_reads(TAG_SEQUENCE, b);
    number_reads(0);
    member_reads(0, der::integer_of(0), der::ctx_of(2, cipher));
    last_member_reads(2, cipher);
    only_reads(TAG_OCTET_STRING, part);
}

/// The four members of a message, grouped from the front.
proof fn body_reads(tickets: Seq<u8>, enc: Seq<u8>, b: Seq<u8>)
    requires
        b == der::ctx_of(0, der::integer_of(5)) + der::ctx_of(1, der::integer_of(22)) + der::ctx_of(
            2,
            tickets,
        ) + der::ctx_of(3, enc),
        tickets.len() <= u64::MAX,
        enc.len() <= u64::MAX,
    ensures
        ({
            let r1 = der::ctx_of(1, der::integer_of(22)) + (der::ctx_of(2, tickets) + der::ctx_of(
                3,
                enc,
            ));
            let r2 = der::ctx_of(2, tickets) + der::ctx_of(3, enc);
            let r3 = der::ctx_of(3, enc);
            &&& member_in(b, 0) == Some((der::integer_of(5), r1))
            &&& member_in(r1, 1) == Some((der::integer_of(22), r2))
            &&& member_in(r2, 2) == Some((tickets, r3))
            &&& member_in(r3, 3) == Some((enc, Seq::<u8>::empty()))
        }),
{
    let f0 = der::ctx_of(0, der::integer_of(5));
    let f1 = der::ctx_of(1, der::integer_of(22));
    let f2 = der::ctx_of(2, tickets);
    let f3 = der::ctx_of(3, enc);
    number_reads(5);
    number_reads(22);
    regroup(f0 + f1, f2, f3);
    regroup(f0, f1, f2 + f3);
    member_reads(0, der::integer_of(5), f1 + (f2 + f3));
    member_reads(1, der::integer_of(22), f2 + f3);
    member_reads(2, tickets, f3);
    last_member_reads(3, enc);
}

/// A message whose four members are known reads as what they hold.
proof fn message_reads(m: Seq<u8>, ticket: Seq<u8>, enc: Seq<u8>, part: Seq<u8>, info: InfoRead)
    requires
        m == der::tlv_of(
            0x76,
            der::tlv_of(
                0x30,
                der::ctx_of(0, der::integer_of(5)) + der::ctx_of(1, der::integer_of(22))
                    + der::ctx_of(2, der::tlv_of(0x30, ticket)) + der::ctx_of(3, enc),
            ),
        ),
        m.len() <= u64::MAX,
        plaintext_in(enc) == Some(part),
        only_info_in(part) == Some(info),
    ensures
        message_in(m) == Some((ticket, info)),
{
    let tickets = der::tlv_of(0x30, ticket);
    let b = der::ctx_of(0, der::integer_of(5)) + der::ctx_of(1, der::integer_of(22)) + der::ctx_of(
        2,
        tickets,
    ) + der::ctx_of(3, enc);
    let s = der::tlv_of(0x30, b);
    assert(s.len() <= m.len() && b.len() <= m.len() && tickets.len() <= m.len() && enc.len()
        <= m.len() && ticket.len() <= m.len()) by {
        element_is_longer(0x76, s);
        element_is_longer(0x30, b);
        element_is_longer(0xa2, tickets);
        element_is_longer(0xa3, enc);
        element_is_longer(0x30, ticket);
    }
    only_reads(0x76, s);
    only_reads(0x30, b);
    only_reads(0x30, ticket);
    number_reads(5);
    number_reads(22);
    body_reads(tickets, enc, b);
}

/// The message is a KRB-CRED that says what the cache said: an independent reader finds the
/// protocol's version and the message's type, the KDC's ticket byte for byte, a part that
/// is not encrypted, and in it the one `KrbCredInfo` of the credential -- the session key
/// in order, whom the ticket is for and of, its flags and its times.
pub proof fn law_a_message_reads_back(c: CredentialModel)
    requires
        krb_cred_of(c).len() <= u64::MAX,
    ensures
        message_in(krb_cred_of(c)) matches Some((ticket, info)) && ticket == c.ticket && reads_as(
            info,
            c,
        ),
{
    let part = der::tlv_of(
        0x7d,
        der::tlv_of(TAG_SEQUENCE, der::ctx_of(0, der::tlv_of(TAG_SEQUENCE, cred_info_of(c)))),
    );
    let enc = der::tlv_of(
        TAG_SEQUENCE,
        der::ctx_of(0, der::integer_of(0)) + der::ctx_of(2, der::tlv_of(TAG_OCTET_STRING, part)),
    );
    let b = der::ctx_of(0, der::integer_of(5)) + der::ctx_of(1, der::integer_of(22)) + der::ctx_of(
        2,
        der::tlv_of(TAG_SEQUENCE, c.ticket),
    ) + der::ctx_of(3, enc);
    let m = der::tlv_of(0x76, der::tlv_of(TAG_SEQUENCE, b));
    assert(krb_cred_of(c) == m);
    assert(enc.len() <= m.len()) by {
        element_is_longer(0x76, der::tlv_of(TAG_SEQUENCE, b));
        element_is_longer(TAG_SEQUENCE, b);
        element_is_longer(0xa3, enc);
    }
    plaintext_reads(part, enc);
    part_reads(c, part);
    message_reads(m, c.ticket, enc, part, only_info_in(part)->0);
}

/// What contracts speak of is what the fields hold, each under its own name.
pub proof fn law_every_field_is_seen_under_its_name(p: Principal, c: Credential)
    ensures
        p@.name_type == p.name_type,
        p@.realm == p.realm@,
        p@.components == text::texts(p.components@),
        c@.client == c.client@,
        c@.server == c.server@,
        c@.keytype == c.keytype,
        c@.key == c.key@,
        c@.authtime == c.authtime,
        c@.starttime == c.starttime,
        c@.endtime == c.endtime,
        c@.renew_till == c.renew_till,
        c@.flags == c.flags,
        c@.ticket == c.ticket@,
{
}

/// A cache that cannot be used says why: the version it names, what was wanted where, or
/// that the ticket is not there.
pub proof fn law_what_an_unusable_cache_says(v: u16, wanted: usize, at: usize)
    ensures
        CcacheError::Version(v).says() == "unsupported ccache version 0x"@ + text::hex4(v)
            + ", expected 0x0504"@,
        (CcacheError::Truncated { wanted, at }).says() == "truncated ccache: wanted "@
            + text::decimal(wanted as nat) + " bytes at offset "@ + text::decimal(at as nat),
        CcacheError::NoTgt.says() == "no TGT (krbtgt/...) credential found in the broker ccache"@,
{
}

} // verus!
