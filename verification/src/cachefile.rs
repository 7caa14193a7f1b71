//! The version 4 credential cache as a KDC's tools write it, and what reading one gives.

use crate::krbcred;
use crate::krbcred::{CcacheError, CredentialModel, PrincipalModel, Times};
use vstd::prelude::*;

verus! {

/// A principal on disk, its strings still bytes.
pub struct StoredPrincipal {
    pub name_type: u32,
    pub realm: Seq<u8>,
    pub components: Seq<Seq<u8>>,
}

/// A credential on disk, with the parts that a reader passes over.
pub struct StoredCredential {
    pub client: StoredPrincipal,
    pub server: StoredPrincipal,
    pub keytype: u16,
    pub key: Seq<u8>,
    pub authtime: u32,
    pub starttime: u32,
    pub endtime: u32,
    pub renew_till: u32,
    pub is_skey: u8,
    pub flags: u32,
    pub addresses: Seq<(u16, Seq<u8>)>,
    pub authdata: Seq<(u16, Seq<u8>)>,
    pub ticket: Seq<u8>,
    pub second_ticket: Seq<u8>,
}

/// Sixteen bits, the high octet first.
pub open spec fn put16(n: nat) -> Seq<u8> {
    seq![(n / 0x100) as u8, (n % 0x100) as u8]
}

/// Thirty-two bits, the high octet first.
pub open spec fn put32(n: nat) -> Seq<u8> {
    seq![
        (n / 0x100_0000) as u8,
        (n / 0x1_0000 % 0x100) as u8,
        (n / 0x100 % 0x100) as u8,
        (n % 0x100) as u8,
    ]
}

/// Bytes behind their count.
pub open spec fn put_bytes(s: Seq<u8>) -> Seq<u8> {
    put32(s.len()) + s
}

pub open spec fn put_strings(s: Seq<Seq<u8>>) -> Seq<u8>
    decreases s.len(),
{
    if s.len() == 0 {
        Seq::empty()
    } else {
        put_strings(s.drop_last()) + put_bytes(s.last())
    }
}

pub open spec fn put_principal(p: StoredPrincipal) -> Seq<u8> {
    put32(p.name_type as nat) + (put32(p.components.len()) + (put_bytes(p.realm) + put_strings(
        p.components,
    )))
}

pub open spec fn put_key(c: StoredCredential) -> Seq<u8> {
    put16(c.keytype as nat) + put_bytes(c.key)
}

pub open spec fn put_times(c: StoredCredential) -> Seq<u8> {
    put32(c.authtime as nat) + (put32(c.starttime as nat) + (put32(c.endtime as nat) + (put32(
        c.renew_till as nat,
    ) + (seq![c.is_skey] + put32(c.flags as nat)))))
}

pub open spec fn put_typed(s: Seq<(u16, Seq<u8>)>) -> Seq<u8>
    decreases s.len(),
{
    if s.len() == 0 {
        Seq::empty()
    } else {
        put_typed(s.drop_last()) + (put16(s.last().0 as nat) + put_bytes(s.last().1))
    }
}

pub open spec fn put_list(s: Seq<(u16, Seq<u8>)>) -> Seq<u8> {
    put32(s.len()) + put_typed(s)
}

pub open spec fn put_ticket(c: StoredCredential) -> Seq<u8> {
    put_list(c.addresses) + (put_list(c.authdata) + (put_bytes(c.ticket) + put_bytes(
        c.second_ticket,
    )))
}

pub open spec fn put_credential(c: StoredCredential) -> Seq<u8> {
    put_principal(c.client) + (put_principal(c.server) + (put_key(c) + (put_times(c) + put_ticket(
        c,
    ))))
}

pub open spec fn put_credentials(s: Seq<StoredCredential>) -> Seq<u8>
    decreases s.len(),
{
    if s.len() == 0 {
        Seq::empty()
    } else {
        put_credential(s[0]) + put_credentials(s.drop_first())
    }
}

/// A whole cache: the version, a header nothing reads, whose cache it is, and what it holds.
pub open spec fn put_cache(
    header: Seq<u8>,
    owner: StoredPrincipal,
    all: Seq<StoredCredential>,
) -> Seq<u8> {
    put16(0x0504) + (put16(header.len()) + (header + (put_principal(owner) + put_credentials(all))))
}

/// What counts in 32 bits.
pub open spec fn counts(n: nat) -> bool {
    n <= u32::MAX
}

pub open spec fn strings_fit(s: Seq<Seq<u8>>) -> bool {
    forall|i: int| 0 <= i < s.len() ==> counts((#[trigger] s[i]).len())
}

pub open spec fn typed_fit(s: Seq<(u16, Seq<u8>)>) -> bool {
    counts(s.len()) && forall|i: int| 0 <= i < s.len() ==> counts((#[trigger] s[i]).1.len())
}

pub open spec fn principal_fits(p: StoredPrincipal) -> bool {
    counts(p.components.len()) && counts(p.realm.len()) && strings_fit(p.components)
}

pub open spec fn credential_fits(c: StoredCredential) -> bool {
    &&& principal_fits(c.client)
    &&& principal_fits(c.server)
    &&& counts(c.key.len())
    &&& typed_fit(c.addresses)
    &&& typed_fit(c.authdata)
    &&& counts(c.ticket.len())
    &&& counts(c.second_ticket.len())
}

/// A stored principal that reads as `p`.
pub open spec fn stores_principal(s: StoredPrincipal, p: PrincipalModel) -> bool {
    &&& p.name_type == s.name_type
    &&& p.realm == krbcred::utf8_lossy(s.realm)
    &&& p.components.len() == s.components.len()
    &&& forall|i: int|
        0 <= i < s.components.len() ==> #[trigger] p.components[i] == krbcred::utf8_lossy(
            s.components[i],
        )
}

/// A stored credential that reads as `c`.
pub open spec fn stores(s: StoredCredential, c: CredentialModel) -> bool {
    &&& stores_principal(s.client, c.client)
    &&& stores_principal(s.server, c.server)
    &&& c.keytype == s.keytype
    &&& c.key == s.key
    &&& c.authtime == s.authtime
    &&& c.starttime == s.starttime
    &&& c.endtime == s.endtime
    &&& c.renew_till == s.renew_till
    &&& c.flags == s.flags
    &&& c.ticket == s.ticket
}

/// `w` stands in `b` from `at` on.
spec fn stands(b: Seq<u8>, at: int, w: Seq<u8>) -> bool {
    0 <= at && at + w.len() <= b.len() && b.subrange(at, at + w.len()) == w
}

proof fn parts_stand(b: Seq<u8>, at: int, x: Seq<u8>, y: Seq<u8>)
    requires
        stands(b, at, x + y),
    ensures
        stands(b, at, x),
        stands(b, at + x.len(), y),
{
    let w = b.subrange(at, at + (x + y).len());
    assert(b.subrange(at, at + x.len()) =~= w.subrange(0, x.len() as int));
    assert(w.subrange(0, x.len() as int) =~= x);
    assert(b.subrange(at + x.len(), at + x.len() + y.len()) =~= w.subrange(
        x.len() as int,
        w.len() as int,
    ));
    assert(w.subrange(x.len() as int, w.len() as int) =~= y);
}

proof fn u16_stands(b: Seq<u8>, at: int, n: u16)
    requires
        stands(b, at, put16(n as nat)),
    ensures
        krbcred::u16_at(b, at) == Ok::<(u16, int), krbcred::Short>((n, at + 2)),
{
    let s = b.subrange(at, at + 2);
    assert(s == put16(n as nat));
    assert(s[0] as int * 0x100 + s[1] as int == n);
}

proof fn u32_stands(b: Seq<u8>, at: int, n: u32)
    requires
        stands(b, at, put32(n as nat)),
    ensures
        krbcred::u32_at(b, at) == Ok::<(u32, int), krbcred::Short>((n, at + 4)),
{
    let s = b.subrange(at, at + 4);
    assert(s == put32(n as nat));
    assert(s[0] as int * 0x100_0000 + s[1] as int * 0x1_0000 + s[2] as int * 0x100 + s[3] as int
        == n);
}

proof fn bytes_stand(b: Seq<u8>, at: int, s: Seq<u8>)
    requires
        stands(b, at, put_bytes(s)),
        counts(s.len()),
    ensures
        krbcred::bytes_at(b, at) == Ok::<(Seq<u8>, int), krbcred::Short>(
            (s, at + put_bytes(s).len()),
        ),
{
    parts_stand(b, at, put32(s.len()), s);
    u32_stands(b, at, s.len() as u32);
}

proof fn strings_stand(b: Seq<u8>, at: int, s: Seq<Seq<u8>>)
    requires
        stands(b, at, put_strings(s)),
        strings_fit(s),
    ensures
        krbcred::strs_at(b, at, s.len()) matches Ok((r, next)) && next == at + put_strings(s).len()
            && r.len() == s.len() && forall|i: int|
            0 <= i < s.len() ==> #[trigger] r[i] == krbcred::utf8_lossy(s[i]),
    decreases s.len(),
{
    if s.len() > 0 {
        let front = s.drop_last();
        parts_stand(b, at, put_strings(front), put_bytes(s.last()));
        assert(counts(s[s.len() - 1].len()));
        assert forall|i: int| 0 <= i < front.len() implies counts((#[trigger] front[i]).len()) by {
            assert(counts(s[i].len()));
        }
        strings_stand(b, at, front);
        bytes_stand(b, at + put_strings(front).len(), s.last());
    }
}

proof fn principal_stands(b: Seq<u8>, at: int, p: StoredPrincipal)
    requires
        stands(b, at, put_principal(p)),
        principal_fits(p),
    ensures
        krbcred::principal_at(b, at) matches Ok((r, next)) && next == at + put_principal(p).len()
            && stores_principal(p, r),
{
    reveal(krbcred::principal_at);
    let r3 = put_strings(p.components);
    let r2 = put_bytes(p.realm) + r3;
    let r1 = put32(p.components.len()) + r2;
    parts_stand(b, at, put32(p.name_type as nat), r1);
    u32_stands(b, at, p.name_type);
    parts_stand(b, at + 4, put32(p.components.len()), r2);
    u32_stands(b, at + 4, p.components.len() as u32);
    parts_stand(b, at + 8, put_bytes(p.realm), r3);
    bytes_stand(b, at + 8, p.realm);
    strings_stand(b, at + 8 + put_bytes(p.realm).len(), p.components);
}

proof fn key_stands(b: Seq<u8>, at: int, c: StoredCredential)
    requires
        stands(b, at, put_key(c)),
        credential_fits(c),
    ensures
        krbcred::key_at(b, at) == Ok::<((u16, Seq<u8>), int), krbcred::Short>(
            ((c.keytype, c.key), at + put_key(c).len()),
        ),
{
    reveal(krbcred::key_at);
    parts_stand(b, at, put16(c.keytype as nat), put_bytes(c.key));
    u16_stands(b, at, c.keytype);
    bytes_stand(b, at + 2, c.key);
}

proof fn times_stand(b: Seq<u8>, at: int, c: StoredCredential)
    requires
        stands(b, at, put_times(c)),
    ensures
        krbcred::times_at(b, at) == Ok::<(Times, int), krbcred::Short>(
            (
                Times {
                    authtime: c.authtime,
                    starttime: c.starttime,
                    endtime: c.endtime,
                    renew_till: c.renew_till,
                    flags: c.flags,
                },
                at + put_times(c).len(),
            ),
        ),
{
    reveal(krbcred::times_at);
    let r5 = put32(c.flags as nat);
    let r4 = seq![c.is_skey] + r5;
    let r3 = put32(c.renew_till as nat) + r4;
    let r2 = put32(c.endtime as nat) + r3;
    let r1 = put32(c.starttime as nat) + r2;
    parts_stand(b, at, put32(c.authtime as nat), r1);
    u32_stands(b, at, c.authtime);
    parts_stand(b, at + 4, put32(c.starttime as nat), r2);
    u32_stands(b, at + 4, c.starttime);
    parts_stand(b, at + 8, put32(c.endtime as nat), r3);
    u32_stands(b, at + 8, c.endtime);
    parts_stand(b, at + 12, put32(c.renew_till as nat), r4);
    u32_stands(b, at + 12, c.renew_till);
    parts_stand(b, at + 16, seq![c.is_skey], r5);
    u32_stands(b, at + 17, c.flags);
}

proof fn typed_stand(b: Seq<u8>, at: int, s: Seq<(u16, Seq<u8>)>)
    requires
        stands(b, at, put_typed(s)),
        typed_fit(s),
    ensures
        krbcred::typed_at(b, at, s.len()) == Ok::<int, krbcred::Short>(at + put_typed(s).len()),
    decreases s.len(),
{
    if s.len() > 0 {
        let front = s.drop_last();
        let one = put16(s.last().0 as nat) + put_bytes(s.last().1);
        parts_stand(b, at, put_typed(front), one);
        assert(counts(s[s.len() - 1].1.len()));
        assert forall|i: int| 0 <= i < front.len() implies counts((#[trigger] front[i]).1.len()) by {
            assert(counts(s[i].1.len()));
        }
        typed_stand(b, at, front);
        let mid = at + put_typed(front).len();
        parts_stand(b, mid, put16(s.last().0 as nat), put_bytes(s.last().1));
        u16_stands(b, mid, s.last().0);
        bytes_stand(b, mid + 2, s.last().1);
    }
}

proof fn list_stands(b: Seq<u8>, at: int, s: Seq<(u16, Seq<u8>)>)
    requires
        stands(b, at, put_list(s)),
        typed_fit(s),
    ensures
        krbcred::list_at(b, at) == Ok::<int, krbcred::Short>(at + put_list(s).len()),
{
    parts_stand(b, at, put32(s.len()), put_typed(s));
    u32_stands(b, at, s.len() as u32);
    typed_stand(b, at + 4, s);
}

proof fn ticket_stands(b: Seq<u8>, at: int, c: StoredCredential)
    requires
        stands(b, at, put_ticket(c)),
        credential_fits(c),
    ensures
        krbcred::ticket_at(b, at) == Ok::<(Seq<u8>, int), krbcred::Short>(
            (c.ticket, at + put_ticket(c).len()),
        ),
{
    reveal(krbcred::ticket_at);
    let r3 = put_bytes(c.second_ticket);
    let r2 = put_bytes(c.ticket) + r3;
    let r1 = put_list(c.authdata) + r2;
    parts_stand(b, at, put_list(c.addresses), r1);
    list_stands(b, at, c.addresses);
    let at1 = at + put_list(c.addresses).len();
    parts_stand(b, at1, put_list(c.authdata), r2);
    list_stands(b, at1, c.authdata);
    let at2 = at1 + put_list(c.authdata).len();
    parts_stand(b, at2, put_bytes(c.ticket), r3);
    bytes_stand(b, at2, c.ticket);
    bytes_stand(b, at2 + put_bytes(c.ticket).len(), c.second_ticket);
}

/// A credential that stands in the bytes is read as what was written: whose it is, for
/// which service, its key, times, flags and ticket, each from its own place, with the
/// addresses, the authorization data and the second ticket passed over.
pub proof fn law_a_stored_credential_reads_back(
    before: Seq<u8>,
    c: StoredCredential,
    after: Seq<u8>,
)
    requires
        credential_fits(c),
    ensures
        krbcred::credential_at(before + put_credential(c) + after, before.len() as int) matches Ok(
            (r, next),
        ) && next == before.len() + put_credential(c).len() && stores(c, r),
{
    let b = before + put_credential(c) + after;
    assert(b.subrange(before.len() as int, before.len() as int + put_credential(c).len())
        =~= put_credential(c));
    credential_stands(b, before.len() as int, c);
}

proof fn credential_stands(b: Seq<u8>, at: int, c: StoredCredential)
    requires
        stands(b, at, put_credential(c)),
        credential_fits(c),
    ensures
        krbcred::credential_at(b, at) matches Ok((r, next)) && next == at + put_credential(c).len()
            && stores(c, r),
{
    reveal(krbcred::credential_at);
    let r4 = put_ticket(c);
    let r3 = put_times(c) + r4;
    let r2 = put_key(c) + r3;
    let r1 = put_principal(c.server) + r2;
    parts_stand(b, at, put_principal(c.client), r1);
    principal_stands(b, at, c.client);
    let at1 = at + put_principal(c.client).len();
    parts_stand(b, at1, put_principal(c.server), r2);
    principal_stands(b, at1, c.server);
    let at2 = at1 + put_principal(c.server).len();
    parts_stand(b, at2, put_key(c), r3);
    key_stands(b, at2, c);
    let at3 = at2 + put_key(c).len();
    parts_stand(b, at3, put_times(c), r4);
    times_stand(b, at3, c);
    ticket_stands(b, at3 + put_times(c).len(), c);
}

proof fn credentials_stand(b: Seq<u8>, at: int, all: Seq<StoredCredential>)
    requires
        stands(b, at, put_credentials(all)),
        at + put_credentials(all).len() == b.len(),
        forall|i: int| 0 <= i < all.len() ==> credential_fits(#[trigger] all[i]),
    ensures
        krbcred::credentials_from(b, at) matches Ok(r) && r.len() == all.len() && forall|i: int|
            0 <= i < all.len() ==> stores(#[trigger] all[i], r[i]),
    decreases all.len(),
{
    if all.len() > 0 {
        let rest = all.drop_first();
        assert(credential_fits(all[0]));
        assert(put_credential(all[0]).len() > 0);
        parts_stand(b, at, put_credential(all[0]), put_credentials(rest));
        credential_stands(b, at, all[0]);
        assert forall|i: int| 0 <= i < rest.len() implies credential_fits(#[trigger] rest[i]) by {
            assert(credential_fits(all[i + 1]));
        }
        let next = at + put_credential(all[0]).len();
        credentials_stand(b, next, rest);
        let r = krbcred::credentials_from(b, at)->Ok_0;
        let tail = krbcred::credentials_from(b, next)->Ok_0;
        assert(r == seq![krbcred::credential_at(b, at)->Ok_0.0] + tail);
        assert forall|i: int| 0 <= i < all.len() implies stores(#[trigger] all[i], r[i]) by {
            if i > 0 {
                assert(rest[i - 1] == all[i]);
                assert(r[i] == tail[i - 1]);
            }
        }
    }
}

/// A cache reads back as what it was written with: every credential, in its place in the
/// file and none besides, whatever the header says and whoever owns the cache.
pub proof fn law_a_stored_cache_reads_back(
    header: Seq<u8>,
    owner: StoredPrincipal,
    all: Seq<StoredCredential>,
)
    requires
        header.len() <= u16::MAX,
        principal_fits(owner),
        forall|i: int| 0 <= i < all.len() ==> credential_fits(#[trigger] all[i]),
    ensures
        krbcred::cache_of(put_cache(header, owner, all)) matches Ok(r) && r.len() == all.len()
            && forall|i: int| 0 <= i < all.len() ==> stores(#[trigger] all[i], r[i]),
{
    let b = put_cache(header, owner, all);
    let r3 = put_principal(owner) + put_credentials(all);
    let r2 = header + r3;
    let r1 = put16(header.len()) + r2;
    assert(b.subrange(0, b.len() as int) =~= b);
    parts_stand(b, 0, put16(0x0504), r1);
    u16_stands(b, 0, 0x0504);
    parts_stand(b, 2, put16(header.len()), r2);
    u16_stands(b, 2, header.len() as u16);
    parts_stand(b, 4, header, r3);
    let at = 4 + header.len() as int;
    parts_stand(b, at, put_principal(owner), put_credentials(all));
    principal_stands(b, at, owner);
    credentials_stand(b, at + put_principal(owner).len(), all);
}

/// Only a version 4 cache is read at all; any other is refused by the version it names.
pub proof fn law_another_version_is_refused(version: u16, rest: Seq<u8>)
    requires
        version != 0x0504,
    ensures
        krbcred::cache_of(put16(version as nat) + rest) == Err::<Seq<CredentialModel>, CcacheError>(
            CcacheError::Version(version),
        ),
{
    let b = put16(version as nat) + rest;
    assert(b.subrange(0, 2) =~= put16(version as nat));
    u16_stands(b, 0, version);
}

/// The ticket that is taken is the first of its kind in the file.
pub proof fn law_the_first_tgt_is_taken(all: Seq<CredentialModel>, i: int)
    requires
        0 <= i < all.len(),
        all[i].server.components == seq!["krbtgt"@, all[i].server.realm],
        forall|k: int|
            0 <= k < i ==> (#[trigger] all[k]).server.components != seq![
                "krbtgt"@,
                all[k].server.realm,
            ],
    ensures
        krbcred::first_tgt(all) == Some(all[i]),
    decreases all.len(),
{
    if all[0].is_tgt() {
        assert(all[0].server.components =~= seq!["krbtgt"@, all[0].server.realm]);
    } else {
        assert(i != 0);
        let rest = all.drop_first();
        assert forall|k: int| 0 <= k < i - 1 implies (#[trigger] rest[k]).server.components != seq![
            "krbtgt"@,
            rest[k].server.realm,
        ] by {
            assert(all[k + 1] == rest[k]);
        }
        law_the_first_tgt_is_taken(rest, i - 1);
    }
}

/// A ticket starts when the KDC said, and where it said nothing when the user signed in.
pub proof fn law_a_ticket_starts(c: CredentialModel)
    ensures
        c.starttime > 0 ==> c.start() == c.starttime,
        c.starttime == 0 ==> c.start() == c.authtime,
{
}

/// A principal of one or two components is written with a slash between them and the realm
/// behind an at sign, as every Kerberos tool writes it.
pub proof fn law_a_principal_is_written_as_usual(a: Seq<char>, b: Seq<char>, realm: Seq<char>, t: u32)
    ensures
        (PrincipalModel { name_type: t, realm, components: seq![a] }).text() == a + seq!['@']
            + realm,
        (PrincipalModel { name_type: t, realm, components: seq![a, b] }).text() == a + seq!['/'] + b
            + seq!['@'] + realm,
{
    reveal_with_fuel(crate::text::join, 3);
    let one = seq![a];
    let two = seq![a, b];
    assert(one.drop_last() =~= Seq::empty());
    assert(two.drop_last() =~= one);
    assert((PrincipalModel { name_type: t, realm, components: one }).text() =~= a + seq!['@']
        + realm);
    assert((PrincipalModel { name_type: t, realm, components: two }).text() =~= a + seq!['/'] + b
        + seq!['@'] + realm);
}

/// A cache is listed entry by entry: whose ticket it is, for what, from when until when, and
/// whether it is this cache's own.
pub proof fn law_what_a_listed_entry_says(
    v: Seq<krbcred::CachedCred>,
    all: Seq<CredentialModel>,
    i: int,
)
    requires
        krbcred::listed(v, all),
        0 <= i < v.len(),
    ensures
        v.len() == all.len(),
        v[i].client@ == all[i].client.text(),
        v[i].server@ == all[i].server.text(),
        all[i].starttime > 0 ==> v[i].start == all[i].starttime,
        all[i].starttime == 0 ==> v[i].start == all[i].authtime,
        v[i].end == all[i].endtime,
        v[i].renew_till == all[i].renew_till,
        v[i].is_tgt <==> all[i].server.components == seq!["krbtgt"@, all[i].server.realm],
{
    if v[i].is_tgt {
        assert(all[i].server.components =~= seq!["krbtgt"@, all[i].server.realm]);
    }
}

/// Where the bytes ran out: inside the bytes, and past their end by what was wanted there.
pub open spec fn ran_out(b: Seq<u8>, e: krbcred::Short) -> bool {
    0 <= e.at <= b.len() && b.len() < e.at + e.wanted && 0 < e.wanted <= u32::MAX
}

/// Reading goes on inside the bytes, or ran out of them.
spec fn within<T>(b: Seq<u8>, r: Result<(T, int), krbcred::Short>) -> bool {
    match r {
        Ok((_, next)) => 0 <= next <= b.len(),
        Err(e) => ran_out(b, e),
    }
}

spec fn within_next(b: Seq<u8>, r: Result<int, krbcred::Short>) -> bool {
    match r {
        Ok(next) => 0 <= next <= b.len(),
        Err(e) => ran_out(b, e),
    }
}

proof fn strings_within(b: Seq<u8>, at: int, n: nat)
    requires
        0 <= at <= b.len(),
    ensures
        within(b, krbcred::strs_at(b, at, n)),
    decreases n,
{
    if n > 0 {
        strings_within(b, at, (n - 1) as nat);
    }
}

proof fn typed_within(b: Seq<u8>, at: int, n: nat)
    requires
        0 <= at <= b.len(),
    ensures
        within_next(b, krbcred::typed_at(b, at, n)),
    decreases n,
{
    if n > 0 {
        typed_within(b, at, (n - 1) as nat);
    }
}

proof fn principal_within(b: Seq<u8>, at: int)
    requires
        0 <= at <= b.len(),
    ensures
        within(b, krbcred::principal_at(b, at)),
{
    reveal(krbcred::principal_at);
    if let Ok((_, at)) = krbcred::u32_at(b, at) {
        if let Ok((n, at)) = krbcred::u32_at(b, at) {
            if let Ok((_, at)) = krbcred::str_at(b, at) {
                strings_within(b, at, n as nat);
            }
        }
    }
}

proof fn list_within(b: Seq<u8>, at: int)
    requires
        0 <= at <= b.len(),
    ensures
        within_next(b, krbcred::list_at(b, at)),
{
    if let Ok((n, at)) = krbcred::u32_at(b, at) {
        typed_within(b, at, n as nat);
    }
}

proof fn ticket_within(b: Seq<u8>, at: int)
    requires
        0 <= at <= b.len(),
    ensures
        within(b, krbcred::ticket_at(b, at)),
{
    reveal(krbcred::ticket_at);
    list_within(b, at);
    if let Ok(at) = krbcred::list_at(b, at) {
        list_within(b, at);
    }
}

proof fn key_and_times_within(b: Seq<u8>, at: int)
    requires
        0 <= at <= b.len(),
    ensures
        within(b, krbcred::key_at(b, at)),
        within(b, krbcred::times_at(b, at)),
{
    reveal(krbcred::key_at);
    reveal(krbcred::times_at);
}

proof fn credential_within(b: Seq<u8>, at: int)
    requires
        0 <= at <= b.len(),
    ensures
        within(b, krbcred::credential_at(b, at)),
{
    reveal(krbcred::credential_at);
    principal_within(b, at);
    if let Ok((_, at)) = krbcred::principal_at(b, at) {
        principal_within(b, at);
        if let Ok((_, at)) = krbcred::principal_at(b, at) {
            key_and_times_within(b, at);
            if let Ok((_, at)) = krbcred::key_at(b, at) {
                key_and_times_within(b, at);
                if let Ok((_, at)) = krbcred::times_at(b, at) {
                    ticket_within(b, at);
                }
            }
        }
    }
}

proof fn credentials_within(b: Seq<u8>, at: int)
    requires
        0 <= at <= b.len(),
    ensures
        krbcred::credentials_from(b, at) matches Err(e) ==> ran_out(b, e),
    decreases b.len() - at,
{
    if at < b.len() {
        credential_within(b, at);
        krbcred::law_credentials_advance(b, at);
        if let Ok((_, next)) = krbcred::credential_at(b, at) {
            credentials_within(b, next);
        }
    }
}

/// A cache that ends too soon is refused by where it ended: what was wanted there reaches
/// past the last byte, and everything before it was there.
pub proof fn law_a_cut_cache_is_refused_by_where_it_ends(b: Seq<u8>, wanted: usize, at: usize)
    requires
        b.len() <= usize::MAX,
        krbcred::cache_of(b) == Err::<Seq<CredentialModel>, CcacheError>(
            CcacheError::Truncated { wanted, at },
        ),
    ensures
        at <= b.len() < at + wanted,
{
    if let Ok((_, n)) = krbcred::u16_at(b, 0) {
        if let Ok((len, n)) = krbcred::u16_at(b, n) {
            if let Ok((_, n)) = krbcred::take_at(b, n, len as int) {
                principal_within(b, n);
                if let Ok((_, n)) = krbcred::principal_at(b, n) {
                    credentials_within(b, n);
                }
            }
        }
    }
}

} // verus!
