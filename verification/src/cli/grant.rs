//! `--grant*`: authorize this machine to get tickets without a browser, and read or
//! stop what is authorized.

use crate::agent::schedule;
use crate::agent::signin::{GrantError, GrantErrorModel};
use crate::broker;
use crate::broker::{BrokerError, BrokerErrorModel, Device, DeviceModel, REFUSED_NOT_DELEGATE};
use crate::config::{Grant, GrantModel, Settings, SettingsModel};
use crate::text;
use crate::text::{decimal_of, joined, same};
use vstd::prelude::*;
use vstd::string::*;

verus! {

/// Add a line.
fn put(lines: &mut Vec<String>, line: String)
    ensures
        text::texts(final(lines)@) == text::texts(old(lines)@).push(line@),
{
    let ghost was = lines@;
    lines.push(line);
    assert(text::texts(lines@) =~= text::texts(was).push(line@));
}

// ------------------------------------------------------------------ how long still

/// Whole days, rounded towards zero.
pub open spec fn whole_days(seconds: int) -> int {
    if seconds >= 0 {
        seconds / 86_400
    } else {
        -((-seconds) / 86_400)
    }
}

/// How long until a deadline, in whole days -- the unit the operator set it in.
pub open spec fn remaining_text(deadline: int, now: int) -> Seq<char> {
    let days = whole_days(deadline - now);
    if days < 0 {
        "overdue"@
    } else if days == 0 {
        "today"@
    } else if days == 1 {
        "in 1 day"@
    } else {
        "in "@ + text::decimal(days as nat) + " days"@
    }
}

pub fn remaining(deadline: i64, now: i64) -> (r: String)
    requires
        schedule::clock(now),
    ensures
        r@ == remaining_text(deadline as int, now as int),
{
    if deadline < now {
        // No whole day past it is still today.
        let past: i128 = now as i128 - deadline as i128;
        return if past >= 86_400 {
            "overdue".to_owned()
        } else {
            "today".to_owned()
        };
    }
    let days: i64 = (deadline - now) / 86_400;
    if days == 0 {
        return "today".to_owned();
    }
    if days == 1 {
        return "in 1 day".to_owned();
    }
    let mut s = "in ".to_owned();
    s.append(decimal_of(days as u64).as_str());
    s.append(" days");
    s
}

// --------------------------------------------------------------------- authorizing

/// What is said before the browser opens, or why it does not.
pub open spec fn beginning(enabled: bool, held: Option<GrantModel>, target: Option<Seq<char>>) -> Result<
    Seq<Seq<char>>,
    Seq<char>,
> {
    if !enabled {
        Err("this deployment does not offer device grants (DEVICE_GRANT_DAYS is 0)"@)
    } else {
        Ok(
            (match held {
                Some(g) => seq![
                    "[kerbridge] renewing grant "@ + g.grant_id
                        + " -- the same key, so the id does not change"@,
                ],
                None => seq![],
            }) + (match target {
                Some(t) => seq![
                    "[kerbridge] authorizing this device for "@ + t + ", not for you"@,
                ],
                None => seq![],
            }),
        )
    }
}

/// Lines, or why there are none.
pub open spec fn lines_of(r: Result<Vec<String>, String>) -> Result<Seq<Seq<char>>, Seq<char>> {
    match r {
        Ok(v) => Ok(text::texts(v@)),
        Err(e) => Err(e@),
    }
}

/// Whether this run may authorize the machine, and what it says first. Refused here
/// rather than at registration so the user is not sent through a browser to be turned
/// away afterwards.
pub fn begin_grant(enabled: bool, settings: &Settings, target: Option<&str>) -> (r: Result<
    Vec<String>,
    String,
>)
    ensures
        lines_of(r) == beginning(enabled, settings@.file.grant, text::opt_str(target)),
{
    if !enabled {
        return Err(
            "this deployment does not offer device grants (DEVICE_GRANT_DAYS is 0)".to_owned(),
        );
    }
    let mut lines: Vec<String> = Vec::new();
    if let Some(g) = settings.grant() {
        let mut s = "[kerbridge] renewing grant ".to_owned();
        s.append(g.grant_id.as_str());
        s.append(" -- the same key, so the id does not change");
        put(&mut lines, s);
    }
    if let Some(t) = target {
        let mut s = "[kerbridge] authorizing this device for ".to_owned();
        s.append(t);
        s.append(", not for you");
        put(&mut lines, s);
    }
    proof {
        let owed = beginning(true, settings@.file.grant, text::opt_str(target));
        assert(text::texts(lines@) =~= owed->Ok_0);
    }
    Ok(lines)
}

/// What a failed authorization says.
pub open spec fn complaint(e: GrantErrorModel) -> Seq<char> {
    match e {
        GrantErrorModel::Broker(b) => b.says(),
        GrantErrorModel::Local(s) => s,
    }
}

/// Why a machine was not authorized. Where the sign-in worked and the account is
/// admitted, what is missing is membership of a group on the *target*, which only
/// somebody else can fix; naming it saves the reader deducing it from a reason.
pub open spec fn refused(e: GrantErrorModel) -> Seq<char> {
    "authorizing this device: "@ + complaint(e) + (match e {
        GrantErrorModel::Broker(BrokerErrorModel::NotAdmitted(why)) => if why
            == REFUSED_NOT_DELEGATE@ {
            ". You are signed in and admitted -- someone has to add you to that account's delegate group; signing in again will not help"@
        } else {
            Seq::empty()
        },
        _ => Seq::empty(),
    })
}

pub fn grant_refused(e: &GrantError) -> (r: String)
    ensures
        r@ == refused(e@),
{
    let said = match e {
        GrantError::Broker(b) => b.message(),
        GrantError::Local(s) => s.clone(),
    };
    let mut s = joined("authorizing this device: ", said.as_str());
    if let GrantError::Broker(BrokerError::NotAdmitted(why)) = e {
        if same(why.as_str(), REFUSED_NOT_DELEGATE) {
            s.append(
                ". You are signed in and admitted -- someone has to add you to that account's delegate group; signing in again will not help",
            );
        }
    }
    assert(s@ =~= refused(e@));
    s
}

/// What is said of a grant once it stands. `by` is its deadline as a local stamp.
pub fn grant_created(grant: &Grant, by: &str) -> (r: Vec<String>)
    ensures
        text::texts(r@) == seq![
            "[kerbridge] this device is authorized as grant "@ + grant@.grant_id
                + "; it needs a browser sign-in again by "@ + by@,
            "  identity  "@ + grant@.identity,
        ],
{
    let mut s = "[kerbridge] this device is authorized as grant ".to_owned();
    s.append(grant.grant_id.as_str());
    s.append("; it needs a browser sign-in again by ");
    s.append(by);
    let mut lines: Vec<String> = Vec::new();
    put(&mut lines, s);
    // The broker's word for whose grant this is, and the only place a delegated run
    // learns it.
    put(&mut lines, joined("  identity  ", grant.identity.as_str()));
    assert(text::texts(lines@) =~= seq![
        "[kerbridge] this device is authorized as grant "@ + grant@.grant_id
            + "; it needs a browser sign-in again by "@ + by@,
        "  identity  "@ + grant@.identity,
    ]);
    lines
}

// ----------------------------------------------------------------------- the status

/// What the machine's key store says of the device key.
pub enum Key {
    Present,
    Absent,
    Unreadable(String),
}

/// The grant this machine holds.
pub open spec fn held_lines(held: Option<GrantModel>, by: Seq<char>, now: i64) -> Seq<Seq<char>> {
    match held {
        Some(g) => seq![
            "[kerbridge] this device holds device grant "@ + g.grant_id,
            "  identity             "@ + g.identity,
            "  works as             "@ + (match g.principal {
                Some(p) => p,
                None => "not yet known -- no exchange has run yet"@,
            }),
            "  audience             "@ + g.audience,
            "  sign-in required by  "@ + by + " ("@ + remaining_text(
                g.sign_in_required_by as int,
                now as int,
            ) + ")"@,
        ],
        None => seq![
            "[kerbridge] this device holds no device grant; every ticket costs a browser sign-in"@,
        ],
    }
}

/// The key, beside the grant it should agree with.
pub open spec fn key_line(key: Key) -> Seq<char> {
    match key {
        Key::Present => "  TPM key              present"@,
        Key::Absent => "  TPM key              absent"@,
        Key::Unreadable(e) => "  TPM key              unreadable ("@ + e@ + ")"@,
    }
}

/// What the two halves disagreeing means.
pub open spec fn verdict(granted: bool, key: Key) -> Seq<Seq<char>> {
    if granted && !(key is Present) {
        seq![
            "\n[kerbridge] the grant names a key this machine no longer has, so the next ticket needs a browser sign-in. --grant authorizes this device again."@,
        ]
    } else if !granted && key is Present {
        seq![
            "\n[kerbridge] a device key is left over with no grant naming it. It authorizes nothing; --grant replaces it, --grant-give-up removes it."@,
        ]
    } else if !granted {
        seq!["\n[kerbridge] --grant authorizes this device, if the deployment allows it."@]
    } else {
        seq![]
    }
}

/// The pin decides who the *next* authorization names and nothing else.
pub open spec fn pin_lines(m: SettingsModel) -> Seq<Seq<char>> {
    if m.file.grant is Some && m.grant_for() is Some {
        seq![
            "\n[kerbridge] the pin decides only who the next authorization names; this machine keeps working as the grant above until --grant is run again."@,
        ]
    } else {
        seq![]
    }
}

/// The whole report.
pub open spec fn status_lines(m: SettingsModel, key: Key, by: Seq<char>, now: i64) -> Seq<Seq<char>> {
    held_lines(m.file.grant, by, now) + seq![
        "  authorizes for       "@ + (match m.grant_for() {
            Some(t) => t,
            None => "whoever authorizes it"@,
        }),
        key_line(key),
    ] + verdict(m.file.grant is Some, key) + pin_lines(m)
}

fn put_held(lines: &mut Vec<String>, held: Option<&Grant>, by: &str, now: i64)
    requires
        schedule::clock(now),
    ensures
        text::texts(final(lines)@) == text::texts(old(lines)@) + held_lines(
            match held {
                Some(g) => Some(g@),
                None => None,
            },
            by@,
            now,
        ),
{
    let ghost was = text::texts(lines@);
    match held {
        Some(g) => {
            put(
                lines,
                joined("[kerbridge] this device holds device grant ", g.grant_id.as_str()),
            );
            put(lines, joined("  identity             ", g.identity.as_str()));
            let works = match &g.principal {
                Some(p) => joined("  works as             ", p.as_str()),
                None => joined(
                    "  works as             ",
                    "not yet known -- no exchange has run yet",
                ),
            };
            put(lines, works);
            put(lines, joined("  audience             ", g.audience.as_str()));
            let mut s = "  sign-in required by  ".to_owned();
            s.append(by);
            s.append(" (");
            s.append(remaining(g.sign_in_required_by, now).as_str());
            s.append(")");
            put(lines, s);
            assert(text::texts(lines@) =~= was + held_lines(Some(g@), by@, now));
        },
        None => {
            put(
                lines,
                "[kerbridge] this device holds no device grant; every ticket costs a browser sign-in".to_owned(),
            );
            assert(text::texts(lines@) =~= was + held_lines(None, by@, now));
        },
    }
}

fn put_verdict(lines: &mut Vec<String>, granted: bool, key: &Key)
    ensures
        text::texts(final(lines)@) == text::texts(old(lines)@) + verdict(granted, *key),
{
    let ghost was = text::texts(lines@);
    let held = matches!(key, Key::Present);
    if granted && !held {
        put(
            lines,
            "\n[kerbridge] the grant names a key this machine no longer has, so the next ticket needs a browser sign-in. --grant authorizes this device again.".to_owned(),
        );
    } else if !granted && held {
        put(
            lines,
            "\n[kerbridge] a device key is left over with no grant naming it. It authorizes nothing; --grant replaces it, --grant-give-up removes it.".to_owned(),
        );
    } else if !granted {
        put(
            lines,
            "\n[kerbridge] --grant authorizes this device, if the deployment allows it.".to_owned(),
        );
    }
    assert(text::texts(lines@) =~= was + verdict(granted, *key));
}

/// What this machine holds, from its settings and its key store alone.
///
/// Deliberately offline. The states worth diagnosing are the two halves disagreeing --
/// a grant whose key is gone, or a key no grant names -- and no broker can be asked
/// about either. `by` is the grant's deadline as a local stamp.
pub fn grant_status(settings: &Settings, key: &Key, by: &str, now: i64) -> (r: Vec<String>)
    requires
        schedule::clock(now),
    ensures
        text::texts(r@) == status_lines(settings@, *key, by@, now),
{
    let mut lines: Vec<String> = Vec::new();
    assert(text::texts(lines@) =~= Seq::empty());
    put_held(&mut lines, settings.grant(), by, now);
    let target = match settings.grant_for() {
        Some(t) => t.to_owned(),
        None => "whoever authorizes it".to_owned(),
    };
    put(&mut lines, joined("  authorizes for       ", target.as_str()));
    let key_said = match key {
        Key::Present => "  TPM key              present".to_owned(),
        Key::Absent => "  TPM key              absent".to_owned(),
        Key::Unreadable(e) => {
            let mut s = "  TPM key              unreadable (".to_owned();
            s.append(e.as_str());
            s.append(")");
            s
        },
    };
    put(&mut lines, key_said);
    put_verdict(&mut lines, settings.grant().is_some(), key);
    if settings.grant().is_some() && settings.grant_for().is_some() {
        put(
            &mut lines,
            "\n[kerbridge] the pin decides only who the next authorization names; this machine keeps working as the grant above until --grant is run again.".to_owned(),
        );
    }
    assert(text::texts(lines@) =~= status_lines(settings@, *key, by@, now));
    lines
}

// -------------------------------------------------------------------------- the list

/// The times of a device as local stamps. `seen` is only read where the device was
/// ever used.
pub struct Stamps {
    pub required_by: String,
    pub added: String,
    pub seen: String,
}

/// The lines of one device. The id leads because it is what a revocation takes: the
/// label is whatever the machine called itself and two machines can claim the same
/// one, while the id is derived from the key and cannot be.
pub open spec fn device_lines(d: DeviceModel, s: Stamps, mine: Option<Seq<char>>, now: i64) -> Seq<
    Seq<char>,
> {
    seq![
        "  "@ + d.grant_id + "  "@ + d.label + (if mine == Some(d.grant_id) {
            "  <- this device"@
        } else {
            ""@
        }),
        "    sign-in required by  "@ + s.required_by@ + " ("@ + remaining_text(
            d.sign_in_required_by as int,
            now as int,
        ) + ")"@ + (if d.clamped {
            ", clamped by the current setting"@
        } else {
            ""@
        }),
        "    added "@ + s.added@ + ", "@ + (if d.last_seen is Some {
            "last used "@ + s.seen@
        } else {
            "never used"@
        }),
    ]
}

/// The lines of the first `n` devices.
pub open spec fn devices_lines(
    ds: Seq<DeviceModel>,
    ss: Seq<Stamps>,
    mine: Option<Seq<char>>,
    now: i64,
    n: int,
) -> Seq<Seq<char>>
    decreases n,
{
    if n <= 0 {
        seq![]
    } else {
        devices_lines(ds, ss, mine, now, n - 1) + device_lines(ds[n - 1], ss[n - 1], mine, now)
    }
}

/// Whose devices they are.
pub open spec fn whose(target: Option<Seq<char>>) -> Seq<char> {
    match target {
        Some(t) => t,
        None => "this account"@,
    }
}

/// The whole list.
pub open spec fn list_lines(
    target: Option<Seq<char>>,
    ds: Seq<DeviceModel>,
    ss: Seq<Stamps>,
    mine: Option<Seq<char>>,
    now: i64,
) -> Seq<Seq<char>> {
    if ds.len() == 0 {
        seq!["[kerbridge] no device authorized for "@ + whose(target)]
    } else {
        seq!["[kerbridge] devices authorized for "@ + whose(target) + ":"@] + devices_lines(
            ds,
            ss,
            mine,
            now,
            ds.len() as int,
        ) + seq!["\n[kerbridge] --grant-revoke <id> stops one of them"@]
    }
}

fn put_device(lines: &mut Vec<String>, d: &Device, st: &Stamps, mine: Option<&str>, now: i64)
    requires
        schedule::clock(now),
    ensures
        text::texts(final(lines)@) == text::texts(old(lines)@) + device_lines(
            d@,
            *st,
            text::opt_str(mine),
            now,
        ),
{
    let ghost was = text::texts(lines@);
    let mut a = "  ".to_owned();
    a.append(d.grant_id.as_str());
    a.append("  ");
    a.append(d.label.as_str());
    let this = match mine {
        Some(id) => same(id, d.grant_id.as_str()),
        None => false,
    };
    if this {
        a.append("  <- this device");
    } else {
        a.append("");
    }
    put(lines, a);
    let mut b = "    sign-in required by  ".to_owned();
    b.append(st.required_by.as_str());
    b.append(" (");
    b.append(remaining(d.sign_in_required_by, now).as_str());
    b.append(")");
    if d.clamped {
        b.append(", clamped by the current setting");
    } else {
        b.append("");
    }
    put(lines, b);
    let mut c = "    added ".to_owned();
    c.append(st.added.as_str());
    c.append(", ");
    // Day-granular by construction, so it answers one question: is this device dead
    // wood.
    let used = if d.last_seen.is_some() {
        joined("last used ", st.seen.as_str())
    } else {
        "never used".to_owned()
    };
    c.append(used.as_str());
    put(lines, c);
    assert(text::texts(lines@) =~= was + device_lines(d@, *st, text::opt_str(mine), now));
}

/// Every device on an account, as the broker sees it, so that a user can audit their
/// own machines without an operator.
pub fn grant_list(
    target: Option<&str>,
    devices: &Vec<Device>,
    stamps: &Vec<Stamps>,
    mine: Option<&str>,
    now: i64,
) -> (r: Vec<String>)
    requires
        schedule::clock(now),
        devices@.len() == stamps@.len(),
    ensures
        text::texts(r@) == list_lines(
            text::opt_str(target),
            broker::devices(devices@),
            stamps@,
            text::opt_str(mine),
            now,
        ),
{
    let ghost ds = broker::devices(devices@);
    let ghost id = text::opt_str(mine);
    let whose_devices = match target {
        Some(t) => t.to_owned(),
        None => "this account".to_owned(),
    };
    let mut lines: Vec<String> = Vec::new();
    assert(text::texts(lines@) =~= Seq::empty());
    if devices.len() == 0 {
        put(&mut lines, joined("[kerbridge] no device authorized for ", whose_devices.as_str()));
        assert(text::texts(lines@) =~= list_lines(text::opt_str(target), ds, stamps@, id, now));
        return lines;
    }
    let mut head = joined("[kerbridge] devices authorized for ", whose_devices.as_str());
    head.append(":");
    put(&mut lines, head);
    let ghost opening = text::texts(lines@);
    assert(opening =~= opening + devices_lines(ds, stamps@, id, now, 0));
    let mut i: usize = 0;
    while i < devices.len()
        invariant
            schedule::clock(now),
            devices@.len() == stamps@.len(),
            ds == broker::devices(devices@),
            id == text::opt_str(mine),
            i <= devices@.len(),
            text::texts(lines@) == opening + devices_lines(ds, stamps@, id, now, i as int),
        decreases devices@.len() - i,
    {
        put_device(&mut lines, &devices[i], &stamps[i], mine, now);
        assert(ds[i as int] == devices@[i as int]@);
        i = i + 1;
        assert(text::texts(lines@) =~= opening + devices_lines(ds, stamps@, id, now, i as int));
    }
    put(&mut lines, "\n[kerbridge] --grant-revoke <id> stops one of them".to_owned());
    assert(text::texts(lines@) =~= list_lines(text::opt_str(target), ds, stamps@, id, now));
    lines
}

// ---------------------------------------------------------------------- giving it up

/// What giving the grant up says. The key goes first and the broker is told after, so
/// this works offline: leaving has to work when nothing else does.
pub open spec fn given_up_lines(grant_id: Seq<char>, told: bool) -> Seq<Seq<char>> {
    seq!["[kerbridge] gave up this machine's device grant "@ + grant_id] + (if told {
        seq![]
    } else {
        seq![
            "[kerbridge] the broker was not told (see the log); the key it names is gone, so the grant is already dead"@,
        ]
    }) + seq![
        "[kerbridge] tickets already in this logon session stand -- --sign-off purges them"@,
    ]
}

/// Give up this machine's own device grant, once its key is gone: the settings forget
/// it. `told` says whether the broker learned of it. `None` where there is nothing to
/// give up.
pub fn grant_given_up(settings: &mut Settings, told: bool) -> (r: Option<Vec<String>>)
    ensures
        match (old(settings)@.file.grant, r) {
            (Some(g), Some(lines)) => text::texts(lines@) == given_up_lines(g.grant_id, told)
                && final(settings)@ == old(settings)@.holding(None),
            (None, None) => final(settings)@ == old(settings)@,
            _ => false,
        },
{
    let id = match settings.grant() {
        Some(g) => g.grant_id.clone(),
        None => {
            return None;
        },
    };
    settings.set_grant(None);
    let mut lines: Vec<String> = Vec::new();
    assert(text::texts(lines@) =~= Seq::empty());
    put(&mut lines, joined("[kerbridge] gave up this machine's device grant ", id.as_str()));
    if !told {
        put(
            &mut lines,
            "[kerbridge] the broker was not told (see the log); the key it names is gone, so the grant is already dead".to_owned(),
        );
    }
    put(
        &mut lines,
        "[kerbridge] tickets already in this logon session stand -- --sign-off purges them".to_owned(),
    );
    assert(text::texts(lines@) =~= given_up_lines(id@, told));
    Some(lines)
}

/// Whether revoking `id` is giving up this machine's own grant under another name: only
/// when the id really is this machine's *and* nothing else was named. An account on the
/// command line says "one of that account's other devices", and the offline path cannot
/// serve it.
pub fn is_own(settings: &Settings, target: Option<&str>, id: &str) -> (r: bool)
    ensures
        r == (target is None && (match settings@.file.grant {
            Some(g) => g.grant_id == id@,
            None => false,
        })),
{
    target.is_none() && match settings.grant() {
        Some(g) => same(g.grant_id.as_str(), id),
        None => false,
    }
}

// ------------------------------------------------------------------------ laws

/// A deadline is overdue exactly when a whole day has passed since, and it is "today"
/// for less than a day on either side.
pub proof fn law_overdue_is_a_whole_day(deadline: int, now: int)
    ensures
        whole_days(deadline - now) < 0 <==> now - deadline >= 86_400,
        whole_days(deadline - now) == 0 <==> -86_400 < deadline - now < 86_400,
{
}

/// The report always says who the next authorization names and what the key store
/// holds, and it draws a conclusion from the two wherever they disagree.
pub proof fn law_a_disagreement_is_named(granted: bool, key: Key)
    ensures
        verdict(granted, key).len() == 0 <==> granted && key is Present,
{
}

/// What is left to a deadline is said in whole days: so many days fit before it, and one
/// more would not; less than a day either way is today, and more than that past it overdue.
pub proof fn law_what_is_left_is_said_in_days(deadline: int, now: int)
    ensures
        now - deadline >= 86_400 ==> remaining_text(deadline, now) == "overdue"@,
        -86_400 < deadline - now < 86_400 ==> remaining_text(deadline, now) == "today"@,
        86_400 <= deadline - now < 2 * 86_400 ==> remaining_text(deadline, now) == "in 1 day"@,
        forall|days: nat|
            days >= 2 && days * 86_400 <= deadline - now < (days + 1) * 86_400 ==> remaining_text(
                deadline,
                now,
            ) == "in "@ + #[trigger] text::decimal(days) + " days"@,
{
}

/// Authorizing begins only where the deployment offers it, and says first what it renews
/// and then for whom it is, where that is not whoever asks.
pub proof fn law_what_authorizing_begins_with(
    enabled: bool,
    held: Option<GrantModel>,
    target: Option<Seq<char>>,
)
    ensures
        beginning(enabled, held, target) is Ok <==> enabled,
        beginning(enabled, held, target) matches Ok(lines) ==> {
            &&& lines.len() == (if held is Some {
                1int
            } else {
                0
            }) + (if target is Some {
                1int
            } else {
                0
            })
            &&& held matches Some(g) ==> lines[0] == "[kerbridge] renewing grant "@ + g.grant_id
                + " -- the same key, so the id does not change"@
            &&& target matches Some(t) ==> lines.last() == "[kerbridge] authorizing this device for "@
                + t + ", not for you"@
        },
{
}

/// A refusal says why, and adds what would help exactly where the caller is admitted but no
/// delegate of the account.
pub proof fn law_what_a_refusal_says(b: BrokerErrorModel, s: Seq<char>)
    ensures
        refused(GrantErrorModel::Local(s)) == "authorizing this device: "@ + s,
        !(b is NotAdmitted) ==> refused(GrantErrorModel::Broker(b)) == "authorizing this device: "@
            + b.says(),
        b matches BrokerErrorModel::NotAdmitted(why) ==> {
            let plain = "authorizing this device: "@ + b.says();
            &&& plain.is_prefix_of(refused(GrantErrorModel::Broker(b)))
            &&& why != "you may not authorize a device for that account"@ ==> refused(
                GrantErrorModel::Broker(b),
            ) == plain
            &&& why == "you may not authorize a device for that account"@ ==> refused(
                GrantErrorModel::Broker(b),
            ) == plain
                + ". You are signed in and admitted -- someone has to add you to that account's delegate group; signing in again will not help"@
        },
{
    let plain = "authorizing this device: "@ + b.says();
    assert(plain + Seq::<char>::empty() =~= plain);
    let own = "authorizing this device: "@ + s;
    assert(own + Seq::<char>::empty() =~= own);
    let r = refused(GrantErrorModel::Broker(b));
    assert(r.take(plain.len() as int) =~= plain);
}

/// A grant is shown as what it is: its id, whose it is, whom it works as, for which broker,
/// until when.
pub proof fn law_a_grant_is_shown_as_what_it_is(g: GrantModel, by: Seq<char>, now: i64)
    ensures
        ({
            let l = held_lines(Some(g), by, now);
            &&& l.len() == 5
            &&& l[0] == "[kerbridge] this device holds device grant "@ + g.grant_id
            &&& l[1] == "  identity             "@ + g.identity
            &&& g.principal matches Some(p) ==> l[2] == "  works as             "@ + p
            &&& g.principal is None ==> l[2] == "  works as             "@
                + "not yet known -- no exchange has run yet"@
            &&& l[3] == "  audience             "@ + g.audience
            &&& l[4] == "  sign-in required by  "@ + by + " ("@ + remaining_text(
                g.sign_in_required_by as int,
                now as int,
            ) + ")"@
        }),
        held_lines(None, by, now).len() == 1,
{
}

/// What the key and the grant say of each other: a grant without its key, a key without a
/// grant, neither; and nothing where both are there.
pub proof fn law_what_key_and_grant_say(key: Key, m: SettingsModel)
    ensures
        !(key is Present) ==> verdict(true, key).len() == 1 && verdict(true, key)[0]
            == "\n[kerbridge] the grant names a key this machine no longer has, so the next ticket needs a browser sign-in. --grant authorizes this device again."@,
        key is Present ==> verdict(true, key).len() == 0 && verdict(false, key).len() == 1
            && verdict(false, key)[0]
            == "\n[kerbridge] a device key is left over with no grant naming it. It authorizes nothing; --grant replaces it, --grant-give-up removes it."@,
        !(key is Present) ==> verdict(false, key).len() == 1 && verdict(false, key)[0]
            == "\n[kerbridge] --grant authorizes this device, if the deployment allows it."@,
        pin_lines(m).len() > 0 <==> m.file.grant is Some && (m.policy.grant_for is Some
            || m.file.grant_for is Some),
{
}

/// A device is listed with its own id, label, deadline and times, and this one is marked.
pub proof fn law_a_device_is_listed_as_what_it_is(
    d: DeviceModel,
    s: Stamps,
    mine: Option<Seq<char>>,
    now: i64,
)
    ensures
        ({
            let l = device_lines(d, s, mine, now);
            let left = "    sign-in required by  "@ + s.required_by@ + " ("@ + remaining_text(
                d.sign_in_required_by as int,
                now as int,
            ) + ")"@;
            &&& l.len() == 3
            &&& mine == Some(d.grant_id) ==> l[0] == "  "@ + d.grant_id + "  "@ + d.label
                + "  <- this device"@
            &&& mine != Some(d.grant_id) ==> l[0] == "  "@ + d.grant_id + "  "@ + d.label + ""@
            &&& d.clamped ==> l[1] == left + ", clamped by the current setting"@
            &&& !d.clamped ==> l[1] == left + ""@
            &&& d.last_seen is Some ==> l[2] == "    added "@ + s.added@ + ", "@ + ("last used "@
                + s.seen@)
            &&& d.last_seen is None ==> l[2] == "    added "@ + s.added@ + ", "@ + "never used"@
        }),
{
}

/// Every device is listed, in the order the broker gave, three lines each.
pub proof fn law_every_device_is_listed(
    ds: Seq<DeviceModel>,
    ss: Seq<Stamps>,
    mine: Option<Seq<char>>,
    now: i64,
    n: int,
    i: int,
)
    requires
        0 <= i < n <= ds.len(),
        ds.len() == ss.len(),
    ensures
        devices_lines(ds, ss, mine, now, n).len() == 3 * n,
        devices_lines(ds, ss, mine, now, n).subrange(3 * i, 3 * i + 3) == device_lines(
            ds[i],
            ss[i],
            mine,
            now,
        ),
    decreases n,
{
    let front = devices_lines(ds, ss, mine, now, n - 1);
    if n > 1 {
        law_every_device_is_listed(
            ds,
            ss,
            mine,
            now,
            n - 1,
            if i < n - 1 {
                i
            } else {
                0
            },
        );
    }
    let all = devices_lines(ds, ss, mine, now, n);
    let last = device_lines(ds[n - 1], ss[n - 1], mine, now);
    assert(all == front + last);
    assert(front.len() == 3 * (n - 1));
    if i == n - 1 {
        assert(all.subrange(3 * i, 3 * i + 3) =~= last);
    } else {
        assert(all.subrange(3 * i, 3 * i + 3) =~= front.subrange(3 * i, 3 * i + 3));
    }
}

/// A list says whose devices it lists, and how one of them is stopped; an empty one says
/// whose it is.
pub proof fn law_a_list_says_whose_it_is(
    target: Option<Seq<char>>,
    ds: Seq<DeviceModel>,
    ss: Seq<Stamps>,
    mine: Option<Seq<char>>,
    now: i64,
)
    requires
        ds.len() == ss.len(),
    ensures
        ({
            let l = list_lines(target, ds, ss, mine, now);
            let who = if target is Some {
                target->0
            } else {
                "this account"@
            };
            &&& ds.len() == 0 ==> l.len() == 1 && l[0] == "[kerbridge] no device authorized for "@
                + who
            &&& ds.len() > 0 ==> l.len() == 3 * ds.len() + 2 && l[0]
                == "[kerbridge] devices authorized for "@ + who + ":"@ && l.subrange(
                1,
                l.len() - 1,
            ) == devices_lines(ds, ss, mine, now, ds.len() as int) && l.last()
                == "\n[kerbridge] --grant-revoke <id> stops one of them"@
        }),
{
    if ds.len() > 0 {
        law_every_device_is_listed(ds, ss, mine, now, ds.len() as int, 0);
        let l = list_lines(target, ds, ss, mine, now);
        let d = devices_lines(ds, ss, mine, now, ds.len() as int);
        assert(l.subrange(1, l.len() - 1) =~= d);
    }
}

/// Giving up says which grant went, that the broker was not told where it was not, and that
/// tickets already here stand.
pub proof fn law_what_giving_up_says(grant_id: Seq<char>, told: bool)
    ensures
        ({
            let l = given_up_lines(grant_id, told);
            &&& l.len() == (if told {
                2int
            } else {
                3int
            })
            &&& l[0] == "[kerbridge] gave up this machine's device grant "@ + grant_id
            &&& !told ==> l[1]
                == "[kerbridge] the broker was not told (see the log); the key it names is gone, so the grant is already dead"@
            &&& l.last()
                == "[kerbridge] tickets already in this logon session stand -- --sign-off purges them"@
        }),
{
}

/// The status says what is held, whom it authorizes for, what the key is, and what follows
/// from them, in that order.
pub proof fn law_what_the_status_says(m: SettingsModel, key: Key, by: Seq<char>, now: i64)
    ensures
        ({
            let l = status_lines(m, key, by, now);
            let n = held_lines(m.file.grant, by, now).len() as int;
            &&& l.take(n) == held_lines(m.file.grant, by, now)
            &&& m.grant_for() matches Some(t) ==> l[n] == "  authorizes for       "@ + t
            &&& m.grant_for() is None ==> l[n] == "  authorizes for       "@
                + "whoever authorizes it"@
            &&& key is Present ==> l[n + 1] == "  TPM key              present"@
            &&& key is Absent ==> l[n + 1] == "  TPM key              absent"@
            &&& key matches Key::Unreadable(e) ==> l[n + 1]
                == "  TPM key              unreadable ("@ + e@ + ")"@
            &&& l.skip(n + 2) == verdict(m.file.grant is Some, key) + pin_lines(m)
        }),
{
    let l = status_lines(m, key, by, now);
    let h = held_lines(m.file.grant, by, now);
    assert(l.take(h.len() as int) =~= h);
    assert(l.skip(h.len() as int + 2) =~= verdict(m.file.grant is Some, key) + pin_lines(m));
}

} // verus!
