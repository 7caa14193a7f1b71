use kerbridge_client::der::{
    civil_from_days, ctx, general_string, integer, kerberos_time, minimal, octets, tlv,
    TAG_GENERALIZED_TIME,
};
use kerbridge_client::krbcred::{ccache_to_tgt, credentials, read_cache, CcacheError};

/// A cache and the KRB-CRED it must encode to, byte for byte: the encoding a Windows LSA
/// was measured accepting.
///
/// One `alice@EXAMPLE.SITE` TGT, aes256 session key, 10 h life, renewable for a week,
/// `FORWARDABLE | RENEWABLE | INITIAL`.
fn golden_ccache() -> Vec<u8> {
    let mut b = Builder::new();
    b.principal("EXAMPLE.SITE", &["alice"]);
    b.principal("EXAMPLE.SITE", &["alice"]);
    b.typed_principal(2, "EXAMPLE.SITE", &["krbtgt", "EXAMPLE.SITE"]);
    b.rest([1_785_240_000, 1_785_240_000, 1_785_276_000, 1_785_844_800], 0x0050_0000, &golden_ticket());
    b.0
}

const GOLDEN_KRBCRED: &str = "\
7682018a30820186a003020105a103020116a28180307e617c307aa003020105a10e1b0c\
4558414d504c452e53495445a221301fa003020102a11830161b066b72627467741b0c45\
58414d504c452e53495445a340303ea003020112a103020102a232043000010203040506\
0708090a0b0c0d0e0f101112131415161718191a1b1c1d1e1f202122232425262728292a\
2b2c2d2e2fa381f63081f3a003020100a281eb0481e87d81e53081e2a081df3081dc3081\
d9a02b3029a003020112a12204205a5a5a5a5a5a5a5a5a5a5a5a5a5a5a5a5a5a5a5a5a5a\
5a5a5a5a5a5a5a5a5a5aa10e1b0c4558414d504c452e53495445a2123010a003020101a1\
0930071b05616c696365a30703050000500000a411180f32303236303732383132303030\
305aa511180f32303236303732383132303030305aa611180f3230323630373238323230\
3030305aa711180f32303236303830343132303030305aa80e1b0c4558414d504c452e53\
495445a921301fa003020102a11830161b066b72627467741b0c4558414d504c452e5349\
5445";

/// The ticket inside it.
fn golden_ticket() -> Vec<u8> {
    let all = unhex(GOLDEN_KRBCRED);
    let at = all.windows(4).position(|w| w == [0x61, 0x7c, 0x30, 0x7a]).unwrap();
    all[at..at + 0x7e].to_vec()
}

fn unhex(s: &str) -> Vec<u8> {
    (0..s.len()).step_by(2).map(|i| u8::from_str_radix(&s[i..i + 2], 16).unwrap()).collect()
}

fn contains(hay: &[u8], needle: &[u8]) -> bool {
    hay.windows(needle.len()).any(|w| w == needle)
}

#[test]
fn encodes_the_golden_cache_byte_for_byte() {
    let tgt = ccache_to_tgt(&golden_ccache()).ok().unwrap();
    assert_eq!(tgt.krbcred, unhex(GOLDEN_KRBCRED));
    // 2026-07-28 12:00:00Z, +10 h, renewable to +7 d.
    assert_eq!(
        (tgt.start, tgt.end, tgt.renew_till),
        (1_785_240_000, 1_785_276_000, 1_785_844_800)
    );
}

/// Builds a cache in the documented layout, so a mistake in the reader shows up as a
/// parse failure rather than a plausible wrong answer.
struct Builder(Vec<u8>);

impl Builder {
    fn new() -> Self {
        // version, then a 12-byte DELTATIME header exactly as kinit writes.
        let mut b = vec![0x05, 0x04, 0x00, 0x0c];
        b.extend_from_slice(&[0x00, 0x01, 0x00, 0x08]);
        b.extend_from_slice(&[0u8; 8]);
        Self(b)
    }

    fn bytes(&mut self, s: &[u8]) {
        self.0.extend_from_slice(&(s.len() as u32).to_be_bytes());
        self.0.extend_from_slice(s);
    }

    fn principal(&mut self, realm: &str, components: &[&str]) {
        self.typed_principal(1, realm, components);
    }

    fn typed_principal(&mut self, name_type: u32, realm: &str, components: &[&str]) {
        self.0.extend_from_slice(&name_type.to_be_bytes());
        self.0.extend_from_slice(&(components.len() as u32).to_be_bytes());
        self.bytes(realm.as_bytes());
        for c in components {
            self.bytes(c.as_bytes());
        }
    }

    fn rest(&mut self, times: [u32; 4], flags: u32, ticket: &[u8]) {
        self.0.extend_from_slice(&18u16.to_be_bytes()); // keytype
        self.bytes(&[0x5a; 32]);
        for t in times {
            self.0.extend_from_slice(&t.to_be_bytes());
        }
        self.0.push(0); // is_skey
        self.0.extend_from_slice(&flags.to_be_bytes());
        self.0.extend_from_slice(&0u32.to_be_bytes()); // addresses
        self.0.extend_from_slice(&0u32.to_be_bytes()); // authdata
        self.bytes(ticket);
        self.bytes(b""); // second ticket
    }

    fn credential(&mut self, server: (&str, &[&str]), times: [u32; 4], flags: u32, ticket: &[u8]) {
        self.principal("EXAMPLE.SITE", &["alice"]);
        self.principal(server.0, server.1);
        self.rest(times, flags, ticket);
    }
}

/// The `X-CACHECONF:` pseudo-credential kinit writes first, then the TGT. The ticket
/// bytes are a marker, not DER: nothing here parses the ticket.
fn sample(times: [u32; 4], flags: u32) -> Vec<u8> {
    let mut b = Builder::new();
    b.principal("EXAMPLE.SITE", &["alice"]);
    b.credential(
        (
            "X-CACHECONF:",
            &["krb5_ccache_conf_data", "fast_avail", "krbtgt/EXAMPLE.SITE@EXAMPLE.SITE"],
        ),
        [0, 0, 0, 0],
        0,
        b"yes",
    );
    b.credential(("EXAMPLE.SITE", &["krbtgt", "EXAMPLE.SITE"]), times, flags, TICKET);
    b.0
}

const TICKET: &[u8] = b"--not-really-der-but-distinctive--";

#[test]
fn picks_the_tgt_and_not_the_config_entry() {
    // The config entry names krbtgt/... in a *component*, so a looser match would submit
    // a configuration string to the LSA as a ticket.
    let tgt = ccache_to_tgt(&sample([1000, 1000, 37000, 605_800], 0)).ok().unwrap();
    assert!(contains(&tgt.krbcred, TICKET));
    assert!(!contains(&tgt.krbcred, b"yes"));
}

#[test]
fn carries_the_kdcs_ticket_bytes_verbatim() {
    // Re-encoding the ticket would put this code between the KDC's signature and the
    // LSA. It is copied, not parsed.
    let tgt = ccache_to_tgt(&sample([1000, 1000, 37000, 0], 0)).ok().unwrap();
    assert!(contains(&tgt.krbcred, TICKET));
}

#[test]
fn a_missing_starttime_falls_back_to_authtime() {
    // MIT stores 0 for an absent optional time. Taken literally that is 1970-01-01, which
    // would make the ticket look 55 years old to the tray's half-life timer.
    let tgt = ccache_to_tgt(&sample([1000, 0, 37000, 0], 0)).ok().unwrap();
    assert_eq!(tgt.start, 1000);
    // ... and the field is omitted from the encoding rather than sent as 1970.
    assert!(!contains(&tgt.krbcred, b"\xa5\x11\x18\x0f"), "starttime [5] must be absent");
}

#[test]
fn omits_renew_till_when_the_ticket_is_not_renewable() {
    let renewable = ccache_to_tgt(&sample([1000, 1000, 37000, 605_800], 0)).ok().unwrap();
    let plain = ccache_to_tgt(&sample([1000, 1000, 37000, 0], 0)).ok().unwrap();
    assert!(contains(&renewable.krbcred, b"\xa7\x11\x18\x0f"));
    assert!(!contains(&plain.krbcred, b"\xa7\x11\x18\x0f"));
    assert_eq!(plain.renew_till, 0);
}

#[test]
fn reports_a_cache_with_no_tgt_rather_than_encoding_nothing() {
    let mut b = Builder::new();
    b.principal("EXAMPLE.SITE", &["alice"]);
    b.credential(("EXAMPLE.SITE", &["cifs", "nas.example.site"]), [1, 1, 2, 0], 0, TICKET);
    let err = ccache_to_tgt(&b.0).err().unwrap().message();
    assert!(err.contains("no TGT"), "{err}");
}

#[test]
fn rejects_a_foreign_version() {
    let mut c = sample([1000, 1000, 37000, 0], 0);
    c[1] = 0x03; // the v3 layout has an extra etype field we do not read
    let err = ccache_to_tgt(&c).err().unwrap().message();
    assert!(err.contains("unsupported ccache version"), "{err}");
}

#[test]
fn rejects_truncation_instead_of_guessing() {
    let full = sample([1000, 1000, 37000, 0], 0);
    assert!(ccache_to_tgt(&full[..full.len() - 4]).is_err());
}

#[test]
fn kerberos_time_is_utc_to_the_second() {
    // GeneralizedTime, 15 bytes, no fractional part.
    assert_eq!(kerberos_time(0)[..2], [TAG_GENERALIZED_TIME, 15]);
    // The epoch, a leap day, and the golden fixture's instant.
    assert_eq!(&kerberos_time(0)[2..], b"19700101000000Z");
    assert_eq!(&kerberos_time(1_709_164_800)[2..], b"20240229000000Z");
    assert_eq!(&kerberos_time(1_785_240_000)[2..], b"20260728120000Z");
}

#[test]
fn der_lengths_take_the_long_form_past_127_bytes() {
    assert_eq!(tlv(0x04, &vec![0u8; 3])[..2], [0x04, 0x03]);
    assert_eq!(tlv(0x04, &vec![0u8; 200])[..3], [0x04, 0x81, 200]);
    assert_eq!(tlv(0x04, &vec![0u8; 400])[..4], [0x04, 0x82, 0x01, 0x90]);
}

#[test]
fn integers_are_minimal_but_never_negative_by_accident() {
    assert_eq!(integer(0), [0x02, 0x01, 0x00]);
    assert_eq!(integer(5), [0x02, 0x01, 0x05]);
    assert_eq!(integer(18), [0x02, 0x01, 0x12]);
    // 128 needs a leading zero or it would decode as -128.
    assert_eq!(integer(128), [0x02, 0x02, 0x00, 0x80]);
}

#[test]
fn every_prefix_of_a_cache_is_refused_or_has_no_tgt() {
    let full = golden_ccache();
    for n in 0..full.len() {
        assert!(ccache_to_tgt(&full[..n]).is_err(), "{n}");
    }
    assert!(matches!(ccache_to_tgt(&[0x05, 0x04]).err().unwrap(), CcacheError::Truncated { .. }));
}

#[test]
fn a_cache_lists_everything_it_holds() {
    let all = read_cache(&sample([1000, 0, 37000, 0], 0)).ok().unwrap();
    let tgts: Vec<_> = all.iter().filter(|c| c.is_tgt).collect();
    assert_eq!(tgts.len(), 1);
    assert_eq!(tgts[0].client, "alice@EXAMPLE.SITE");
    assert_eq!(tgts[0].server, "krbtgt/EXAMPLE.SITE@EXAMPLE.SITE");
    assert_eq!((tgts[0].start, tgts[0].end), (1000, 37000));
    assert_eq!(credentials(&golden_ccache()).ok().unwrap().len(), 1);
}

#[test]
fn a_name_that_is_no_text_is_still_listed() {
    let mut c = sample([1000, 0, 37000, 0], 0);
    let at = c.windows(5).rposition(|w| w == b"alice").unwrap();
    c[at] = 0xff;
    let all = read_cache(&c).ok().unwrap();
    assert_eq!(all.last().unwrap().client, "\u{fffd}lice@EXAMPLE.SITE");
}

#[test]
fn a_day_has_one_date() {
    assert_eq!(civil_from_days(0), (1970, 1, 1));
    assert_eq!(civil_from_days(-1), (1969, 12, 31));
    assert_eq!(civil_from_days(11_016), (2000, 2, 29));
    assert_eq!(civil_from_days(19_782), (2024, 2, 29));
    assert_eq!(civil_from_days(-25_508), (1900, 3, 1), "1900 was no leap year");
    // Every day of four centuries follows the one before it.
    let mut was = civil_from_days(-1);
    for day in 0..146_097 {
        let (y, m, d) = civil_from_days(day);
        assert!((y, m, d) == (was.0, was.1, was.2 + 1) || d == 1, "{day}");
        was = (y, m, d);
    }
    assert_eq!(was, (2369, 12, 31));
    assert_eq!(civil_from_days(i64::MIN), (-25_252_734_927_764_585, 6, 7));
    assert_eq!(civil_from_days(i64::MAX - 719_468), (25_252_734_927_766_554, 9, 25));
}

#[test]
fn minimal_octets_read_back() {
    for n in [0u64, 1, 127, 128, 255, 256, 0x0100_0000, u64::MAX] {
        let read = minimal(n).iter().fold(0u64, |sum, b| sum << 8 | u64::from(*b));
        assert_eq!(read, n);
    }
    assert_eq!(minimal(256), [1, 0]);
    assert_eq!(octets(258, 4), [0, 0, 1, 2]);
    assert_eq!(octets(0x1_0203, 2), [2, 3]);
    assert_eq!(octets(7, 10_000).len(), 10_000);
    assert_eq!(ctx(3, &vec![7]), [0xa3, 1, 7]);
    assert_eq!(general_string("ab"), [0x1b, 2, 0x61, 0x62]);
}

#[test]
fn a_cache_grows_by_whole_credentials() {
    let cache = sample([1000, 0, 37000, 0], 0);
    let before = read_cache(&cache).ok().unwrap();
    let mut one = Builder(Vec::new());
    one.credential(("EXAMPLE.SITE", &["cifs", "files"]), [2000, 0, 9000, 0], 0, b"t");
    let e = one.0;
    let with = |n: usize| {
        let mut b = cache.clone();
        b.extend_from_slice(&e[..n]);
        read_cache(&b)
    };
    let after = with(e.len()).ok().unwrap();
    assert_eq!(after.len(), before.len() + 1);
    for (a, b) in after.iter().zip(&before) {
        assert_eq!((&a.client, &a.server, a.end), (&b.client, &b.server, b.end));
    }
    assert_eq!(after.last().unwrap().server, "cifs/files@EXAMPLE.SITE");
    for n in 1..e.len() {
        assert!(with(n).is_err(), "{n}");
    }
    assert_eq!(with(0).ok().unwrap().len(), before.len());
}
