//! The sheets and the notifications: what each of them says, and what dismissing one
//! changes.

use crate::agent::commands;
use crate::agent::commands::{apply_settings, Applied};
use crate::agent::schedule;
use crate::agent::status::{Status, TicketClock};
use crate::agent::{Agent, Outcome, OutcomeModel, Severity};
use crate::describe::{Action, Supply};
use crate::sentence;
use crate::sentence::{
    say, say_about, text_value, Filler, FillerModel, Phrase, Sentence, SentenceModel, Slot,
};
use crate::text;
use crate::text::{or_empty, same};
use crate::words::{Words, WordsModel};
use vstd::prelude::*;
use vstd::string::*;

verus! {

/// Shown as it is in About, every locale.
pub const COPYRIGHT: &'static str = "© 2026 Jarno Elonen";

pub const WEBSITE: &'static str = "https://kerbridge.org/";

/// May a notification light a dark screen?
#[derive(Clone, Copy, PartialEq, Eq, Debug, Structural)]
pub enum Interruption {
    Passive,
    Active,
}

/// Severity is an **interruption level** here rather than an icon: a banner has no
/// icon slot of ours to carry it. Nothing the agent says is time-sensitive in the
/// sense the system means, so the loud end is `Active` and the quiet end is `Passive`.
pub fn interruption(severity: Severity) -> (r: Interruption)
    ensures
        r == (if severity is Info {
            Interruption::Passive
        } else {
            Interruption::Active
        }),
{
    match severity {
        Severity::Info => Interruption::Passive,
        Severity::Warning | Severity::Error => Interruption::Active,
    }
}

// -------------------------------------------------------------------- an outcome

/// An alert about an operation that finished. Its body is the message and, under an
/// empty line, the detail.
pub struct Finished {
    /// What was asked for, in the words it was offered in.
    pub caption: Words,
    pub ok: bool,
    pub message: Sentence,
    pub detail: Vec<Sentence>,
}

#[verifier::ext_equal]
pub struct FinishedModel {
    pub caption: WordsModel,
    pub ok: bool,
    pub message: SentenceModel,
    pub detail: Seq<SentenceModel>,
}

impl View for Finished {
    type V = FinishedModel;

    open spec fn view(&self) -> FinishedModel {
        FinishedModel {
            caption: self.caption@,
            ok: self.ok,
            message: self.message@,
            detail: sentence::sentences(self.detail@),
        }
    }
}

/// What an outcome is shown as, captioned with what was asked for. A decline is a
/// decision rather than a fault: it returns in silence.
pub open spec fn shown_as(action: Action, outcome: OutcomeModel) -> Option<FinishedModel> {
    let caption = WordsModel::Offer(action);
    match outcome {
        OutcomeModel::Declined => None,
        OutcomeModel::Done { message, detail } => Some(
            FinishedModel { caption, ok: true, message, detail },
        ),
        OutcomeModel::Failed { message } => Some(
            FinishedModel { caption, ok: false, message, detail: Seq::empty() },
        ),
    }
}

/// One of the hosted operations finished. An alert rather than a notification, so that
/// it lands in front of the person who asked for it instead of in a corner they have
/// to notice.
pub fn finished(action: Action, outcome: Outcome) -> (r: Option<Finished>)
    ensures
        match r {
            Some(f) => shown_as(action, outcome@) == Some(f@),
            None => shown_as(action, outcome@) is None,
        },
{
    let caption = Words::Offer(action);
    match outcome {
        Outcome::Declined => None,
        Outcome::Done { message, detail } => Some(Finished { caption, ok: true, message, detail }),
        Outcome::Failed { message } => {
            let detail: Vec<Sentence> = Vec::new();
            assert(sentence::sentences(detail@) =~= Seq::empty());
            Some(Finished { caption, ok: false, message, detail })
        },
    }
}

/// The text of an alert's body.
pub fn alert_body(message: &str, detail: Option<&str>) -> (r: String)
    ensures
        r@ == (match detail {
            Some(d) => message@ + "\n\n"@ + d@,
            None => message@,
        }),
{
    let mut s = message.to_owned();
    if let Some(d) = detail {
        s.append("\n\n");
        s.append(d);
    }
    s
}

// ------------------------------------------------------------------- the details

/// A label and its value.
pub struct Detail {
    pub label: Phrase,
    pub value: Sentence,
}

#[verifier::ext_equal]
pub struct DetailModel {
    pub label: Phrase,
    pub value: SentenceModel,
}

impl View for Detail {
    type V = DetailModel;

    open spec fn view(&self) -> DetailModel {
        DetailModel { label: self.label, value: self.value@ }
    }
}

/// The details behind a vector of them.
pub open spec fn details_of(v: Seq<Detail>) -> Seq<DetailModel> {
    Seq::new(v.len(), |i: int| v[i]@)
}

/// A value that needs no translation but its own.
pub open spec fn valued(label: Phrase, value: FillerModel) -> DetailModel {
    DetailModel { label, value: sentence::about(Phrase::Verbatim, Slot::Detail, value) }
}

/// When the ticket ends.
pub open spec fn ticket_value(t: TicketClock) -> SentenceModel {
    sentence::about(
        if t.renewable {
            Phrase::DTicketValue
        } else {
            Phrase::DTicketValueNorenew
        },
        Slot::Time,
        FillerModel::Time(t.end),
    )
}

/// What stands behind the next renewal.
pub open spec fn supply_value(s: Supply) -> SentenceModel {
    sentence::plain(
        match s {
            Supply::Grant => Phrase::DSupplyGrant,
            Supply::WindowsSignIn => Phrase::DSupplyWam,
            Supply::BrowserSignIn => Phrase::DSupplyBrowser,
            Supply::Nothing => Phrase::DSupplyNone,
        },
    )
}

/// How long the ticket has, and what it is for. The realm is constant per machine, and
/// it names the subject every other row is about.
pub open spec fn subject(st: Status) -> Seq<DetailModel> {
    (match st.ticket {
        Some(t) => seq![valued(Phrase::MeterLabel, FillerModel::Duration(t.remaining))],
        None => seq![],
    }) + seq![valued(Phrase::DRealm, FillerModel::Text(st.realm@))] + (if st.source@.len() > 0 {
        seq![valued(Phrase::DSource, FillerModel::Text(st.source@))]
    } else {
        seq![]
    })
}

/// When it ends, and what happens next.
pub open spec fn outlook(st: Status) -> Seq<DetailModel> {
    (match st.ticket {
        Some(t) => seq![DetailModel { label: Phrase::DTicket, value: ticket_value(t) }],
        None => seq![],
    }) + seq![DetailModel { label: Phrase::DSupply, value: supply_value(st.supply) }] + (
    match st.next_attempt_at_earliest {
        Some(next) => seq![valued(Phrase::DNext, FillerModel::Time(next))],
        None => seq![],
    })
}

fn put_detail(v: &mut Vec<Detail>, label: Phrase, value: Sentence)
    ensures
        details_of(final(v)@) == details_of(old(v)@).push(DetailModel { label, value: value@ }),
{
    let ghost was = v@;
    let d = Detail { label, value };
    v.push(d);
    assert(details_of(v@) =~= details_of(was).push(d@));
}

fn as_it_is(value: Filler) -> (r: Sentence)
    ensures
        r@ == sentence::about(Phrase::Verbatim, Slot::Detail, value@),
{
    say_about(Phrase::Verbatim, Slot::Detail, value)
}

fn put_subject(v: &mut Vec<Detail>, st: &Status)
    ensures
        details_of(final(v)@) == details_of(old(v)@) + subject(*st),
{
    let ghost was = details_of(v@);
    if let Some(t) = &st.ticket {
        put_detail(v, Phrase::MeterLabel, as_it_is(Filler::Duration(t.remaining)));
    }
    put_detail(v, Phrase::DRealm, as_it_is(text_value(st.realm.as_str())));
    if !st.source.as_str().is_empty() {
        put_detail(v, Phrase::DSource, as_it_is(text_value(st.source.as_str())));
    }
    assert(details_of(v@) =~= was + subject(*st));
}

fn put_outlook(v: &mut Vec<Detail>, st: &Status)
    ensures
        details_of(final(v)@) == details_of(old(v)@) + outlook(*st),
{
    let ghost was = details_of(v@);
    if let Some(t) = &st.ticket {
        let value = if t.renewable {
            Phrase::DTicketValue
        } else {
            Phrase::DTicketValueNorenew
        };
        put_detail(v, Phrase::DTicket, say_about(value, Slot::Time, Filler::Time(t.end)));
    }
    let supply = match st.supply {
        Supply::Grant => Phrase::DSupplyGrant,
        Supply::WindowsSignIn => Phrase::DSupplyWam,
        Supply::BrowserSignIn => Phrase::DSupplyBrowser,
        Supply::Nothing => Phrase::DSupplyNone,
    };
    put_detail(v, Phrase::DSupply, say(supply));
    if let Some(next) = st.next_attempt_at_earliest {
        put_detail(v, Phrase::DNext, as_it_is(Filler::Time(next)));
    }
    assert(details_of(v@) =~= was + outlook(*st));
}

/// The Kerberos details, read-only: each is a label, a colon and its value.
pub fn details_sheet(st: &Status) -> (r: Vec<Detail>)
    ensures
        details_of(r@) == subject(*st) + outlook(*st),
{
    let mut v: Vec<Detail> = Vec::new();
    assert(details_of(v@) =~= Seq::empty());
    put_subject(&mut v, st);
    put_outlook(&mut v, st);
    assert(details_of(v@) =~= subject(*st) + outlook(*st));
    v
}

/// A line of the details, once its label and value have words.
pub fn detail_line(label: &str, value: &str) -> (r: String)
    ensures
        r@ == label@ + ": "@ + value@,
{
    let mut s = label.to_owned();
    s.append(": ");
    s.append(value);
    s
}

// ------------------------------------------------------------------ the settings

/// The Settings sheet was accepted: the broker address and whether to start at login.
/// `shown` is the address the field held when the sheet came up, and an unedited field
/// commits nothing: it may be one the machine only follows.
///
/// What has no control on this sheet is handed straight back: a Windows sign-in this
/// platform never had is not something it may clear, and the pin is machine policy or
/// nothing here.
pub fn settings_sheet(
    a: &mut Agent,
    shown: &str,
    broker: &str,
    autostart: bool,
    enabled: bool,
    machine_wide: bool,
    now: i64,
) -> (r: Applied)
    requires
        schedule::clock(now),
        old(a)@.sound(),
    ensures
        commands::is_applied(
            old(a)@,
            final(a)@,
            r,
            if broker@ == shown@ {
                None
            } else {
                Some(broker@)
            },
            autostart,
            enabled,
            machine_wide,
            old(a)@.settings.windows_sign_in(),
            text::or_nothing(old(a)@.settings.grant_for()),
            now,
        ),
        final(a)@.sound(),
{
    let windows_sign_in = a.settings.windows_sign_in();
    let target = or_empty(a.settings.grant_for());
    let broker = if same(broker, shown) {
        None
    } else {
        Some(broker)
    };
    apply_settings(
        a,
        broker,
        autostart,
        enabled,
        machine_wide,
        windows_sign_in,
        target.as_str(),
        now,
    )
}

// --------------------------------------------------------------------- the about

/// The title of the About box.
pub fn about_title(app_name: &str, version: &str, tagline: &str) -> (r: String)
    ensures
        r@ == app_name@ + " "@ + version@ + " · "@ + tagline@,
{
    let mut s = app_name.to_owned();
    s.append(" ");
    s.append(version);
    s.append(" · ");
    s.append(tagline);
    s
}

/// The body of the About box: whose it is, and the license it is under.
pub fn about_body(license: &str) -> (r: String)
    ensures
        r@ == COPYRIGHT@ + "\n\n"@ + license@,
{
    let mut s = COPYRIGHT.to_owned();
    s.append("\n\n");
    s.append(license);
    s
}

// ------------------------------------------------------------------------ laws

/// An operation that finished is shown under its own name, as it came: a success in its
/// words and with its details, a failure in its words, and a prompt that was declined not at
/// all.
pub proof fn law_how_a_finished_operation_is_shown(
    action: Action,
    message: SentenceModel,
    detail: Seq<SentenceModel>,
)
    ensures
        shown_as(action, OutcomeModel::Declined) is None,
        shown_as(action, OutcomeModel::Done { message, detail }) == Some(
            FinishedModel { caption: WordsModel::Offer(action), ok: true, message, detail },
        ),
        shown_as(action, OutcomeModel::Failed { message }) == Some(
            FinishedModel {
                caption: WordsModel::Offer(action),
                ok: false,
                message,
                detail: Seq::empty(),
            },
        ),
{
}

/// What the details say: how long is left, the realm, its source, the ticket's end, what
/// stands behind the next renewal and when that is tried, each where there is one.
pub proof fn law_what_the_details_say(st: Status)
    ensures
        ({
            let s = subject(st);
            let k = if st.ticket is Some {
                1int
            } else {
                0int
            };
            &&& st.ticket matches Some(t) ==> s[0].label == Phrase::MeterLabel && s[0].value
                == sentence::about(
                Phrase::Verbatim,
                Slot::Detail,
                FillerModel::Duration(t.remaining),
            )
            &&& s[k].label == Phrase::DRealm && s[k].value == sentence::about(
                Phrase::Verbatim,
                Slot::Detail,
                FillerModel::Text(st.realm@),
            )
            &&& st.source@.len() > 0 ==> s.len() == k + 2 && s[k + 1].label == Phrase::DSource
                && s[k + 1].value == sentence::about(
                Phrase::Verbatim,
                Slot::Detail,
                FillerModel::Text(st.source@),
            )
            &&& st.source@.len() == 0 ==> s.len() == k + 1
        }),
        ({
            let o = outlook(st);
            let k = if st.ticket is Some {
                1int
            } else {
                0int
            };
            &&& st.ticket matches Some(t) ==> o[0].label == Phrase::DTicket && o[0].value
                == sentence::about(
                if t.renewable {
                    Phrase::DTicketValue
                } else {
                    Phrase::DTicketValueNorenew
                },
                Slot::Time,
                FillerModel::Time(t.end),
            )
            &&& o[k].label == Phrase::DSupply
            &&& st.supply == Supply::Grant ==> o[k].value.phrase is DSupplyGrant
            &&& st.supply == Supply::WindowsSignIn ==> o[k].value.phrase is DSupplyWam
            &&& st.supply == Supply::BrowserSignIn ==> o[k].value.phrase is DSupplyBrowser
            &&& st.supply == Supply::Nothing ==> o[k].value.phrase is DSupplyNone
            &&& st.next_attempt_at_earliest matches Some(next) ==> o.len() == k + 2 && o[k
                + 1].label == Phrase::DNext && o[k + 1].value == sentence::about(
                Phrase::Verbatim,
                Slot::Detail,
                FillerModel::Time(next),
            )
            &&& st.next_attempt_at_earliest is None ==> o.len() == k + 1
        }),
{
}

} // verus!
