//! What is said, before it is in any language.
//!
//! The core decides which sentence a surface shows and what it is about; the
//! words are a translation table's. So a sentence here is the phrase of that
//! table and the values for its placeholders.

use vstd::prelude::*;

verus! {

/// One entry of the translation table.
#[derive(Clone, Copy, PartialEq, Eq, Debug, Structural)]
pub enum Phrase {
    /// Nothing is said.
    Silence,
    /// The `detail` itself: a sentence that already is in the user's language.
    Verbatim,
    ErrTlsUntrusted,
    ErrBrokerAmbiguousSource,
    ErrBrokerUnreachable,
    ErrIdpRefused,
    ErrSignInTimeout,
    ErrSilentRefresh,
    ErrSignIn,
    ErrGrantTooMany,
    ErrGrantNotDelegate,
    ErrGrantNotAllowed,
    ErrGrantFailed,
    ErrInternal,
    ErrGrantDisabled,
    ErrNotAdmitted,
    ErrInvalidProof,
    ErrRateLimited,
    ErrServerUnavailable,
    ErrBadRequest,
    ErrBrokerProtocol,
    ErrWamEmpty,
    ErrBrowserRequired,
    ErrGrantReauthorize,
    ErrGrantKey,
    ErrSignOffFailed,
    ErrElevationUnavailable,
    ErrElevatedUnconfirmed,
    ErrElevationFailed,
    SignedOffNote,
    GrantedNote,
    GrantedNoteWam,
    NotifyReadyTitle,
    NotifyReadyBody,
    NotifyStoppedTitle,
    NotifyStoppedBody,
    NotifyExpiringTitle,
    NotifyExpiringBody,
    NotifyGrantDueTitle,
    NotifyGrantDueBody,
    CondStopped,
    IdWorkingAs,
    IdSignedInAs,
    GrantDone,
    DlgGrantUnsaved,
    DlgGrantOffResult,
    DlgGrantOffResultSub,
    DlgGrantOffResultStale,
    DlgRepairBody,
    DlgRepairDependents,
    DlgRepairSave,
    DlgRepairQuestion,
    DlgRepairCommit,
    DlgRepairWorking,
    DlgEnrollQuestion,
    DlgEnrollBody,
    DlgEnrollReboot,
    DlgEnrollCommit,
    DlgEnrollWorking,
    DlgUnenrollQuestion,
    DlgUnenrollBody,
    DlgUnenrollNote,
    DlgUnenrollCommit,
    DlgUnenrollWorking,
    DlgGrantOffQuestion,
    DlgGrantOffBody,
    DlgGrantOffBodyOwn,
    DlgGrantOffBodyDelegated,
    DlgGrantOffCommit,
    DlgGrantOffWorking,
    GrantConfirm,
    DlgGrantCommit,
    DlgGrantWorking,
    DlgWaiting,
    EnrollDiscoveryFailed,
    EnrollAlready,
    EnrollIncomplete,
    DlgEnrollResult,
    UnenrollAlready,
    UnenrollIncomplete,
    DlgUnenrollResult,
    DlgRepairResult,
    RepairIncomplete,
    FailTitleEnroll,
    FailTitleUnenroll,
    FailTitleRepair,
    SettingsSectionAuthorization,
    AppName,
    NoAction,
    ActOpenLog,
    AccessEndsIn,
    MeterLabel,
    GrantExpiresIn,
    DRealm,
    DSource,
    DTicket,
    DTicketValue,
    DTicketValueNorenew,
    DSupply,
    DSupplyGrant,
    DSupplyWam,
    DSupplyBrowser,
    DSupplyNone,
    DNext,
    TabBasic,
    TabAdvanced,
    TabAbout,
    Tagline,
    DetailsHeading,
    BtnCancel,
    DlgClose,
    MenuOpenStatus,
    MenuSettings,
    MenuHelp,
    MenuQuit,
    SettingsSectionConnection,
    SettingsBrokerLabel,
    SettingsBrokerManaged,
    SettingsBrokerSub,
    SettingsSave,
    SettingsSectionSignin,
    SettingsStartupLabel,
    SettingsStartupManaged,
    SettingsWamLabel,
    SettingsWamSub,
    SettingsGate,
    SettingsSectionTroubleshoot,
    SettingsTroubleshootSub,
    SettingsGrantState,
    SettingsGrantForLabel,
    SettingsGrantForSub,
    SettingsSectionWindows,
    SettingsEnrolled,
    SettingsNotEnrolled,
    ActCreateGrant,
    ActCreateGrantAgain,
    ActGiveUpGrant,
    ActReenroll,
    ActUnenroll,
    AboutLicense,
}

/// A placeholder of a phrase.
#[derive(Clone, Copy, PartialEq, Eq, Debug, Structural)]
pub enum Slot {
    Account,
    Broker,
    Date,
    Days,
    Detail,
    Duration,
    Identity,
    Idp,
    Issuer,
    Realm,
    Remaining,
    Services,
    Sources,
    Target,
    Time,
}

/// What fills a placeholder.
#[derive(PartialEq, Eq, Debug)]
pub enum Filler {
    Text(String),
    /// A number of days.
    Days(i64),
    /// A number of seconds, said as a duration.
    Duration(i64),
    /// Unix seconds, said as a local date.
    Date(i64),
    /// Unix seconds, said as a local time.
    Time(i64),
    /// Another phrase, whose only placeholder is filled with the text.
    Said(Phrase, String),
}

/// What fills a placeholder, as a mathematical value.
#[verifier::ext_equal]
pub enum FillerModel {
    Text(Seq<char>),
    Days(i64),
    Duration(i64),
    Date(i64),
    Time(i64),
    Said(Phrase, Seq<char>),
}

impl View for Filler {
    type V = FillerModel;

    open spec fn view(&self) -> FillerModel {
        match *self {
            Filler::Text(s) => FillerModel::Text(s@),
            Filler::Days(n) => FillerModel::Days(n),
            Filler::Duration(n) => FillerModel::Duration(n),
            Filler::Date(n) => FillerModel::Date(n),
            Filler::Time(n) => FillerModel::Time(n),
            Filler::Said(p, s) => FillerModel::Said(p, s@),
        }
    }
}

/// A phrase and what fills its placeholders.
#[derive(PartialEq, Eq, Debug)]
pub struct Sentence {
    pub phrase: Phrase,
    pub args: Vec<(Slot, Filler)>,
}

/// A sentence as a mathematical value.
#[verifier::ext_equal]
pub struct SentenceModel {
    pub phrase: Phrase,
    pub args: Seq<(Slot, FillerModel)>,
}

impl View for Sentence {
    type V = SentenceModel;

    open spec fn view(&self) -> SentenceModel {
        SentenceModel {
            phrase: self.phrase,
            args: Seq::new(self.args@.len(), |i: int| (self.args@[i].0, self.args@[i].1@)),
        }
    }
}

/// Several sentences.
pub open spec fn sentences(v: Seq<Sentence>) -> Seq<SentenceModel> {
    Seq::new(v.len(), |i: int| v[i]@)
}

/// A phrase without placeholders.
pub open spec fn plain(p: Phrase) -> SentenceModel {
    SentenceModel { phrase: p, args: Seq::empty() }
}

/// A phrase with one placeholder.
pub open spec fn about(p: Phrase, slot: Slot, value: FillerModel) -> SentenceModel {
    SentenceModel { phrase: p, args: seq![(slot, value)] }
}

/// A phrase with two placeholders.
pub open spec fn about2(
    p: Phrase,
    slot1: Slot,
    value1: FillerModel,
    slot2: Slot,
    value2: FillerModel,
) -> SentenceModel {
    SentenceModel { phrase: p, args: seq![(slot1, value1), (slot2, value2)] }
}

/// A phrase with three placeholders.
pub open spec fn about3(
    p: Phrase,
    slot1: Slot,
    value1: FillerModel,
    slot2: Slot,
    value2: FillerModel,
    slot3: Slot,
    value3: FillerModel,
) -> SentenceModel {
    SentenceModel { phrase: p, args: seq![(slot1, value1), (slot2, value2), (slot3, value3)] }
}

pub fn say(p: Phrase) -> (r: Sentence)
    ensures
        r@ == plain(p),
{
    let r = Sentence { phrase: p, args: Vec::new() };
    assert(r@.args =~= Seq::empty());
    r
}

pub fn say_about(p: Phrase, slot: Slot, value: Filler) -> (r: Sentence)
    ensures
        r@ == about(p, slot, value@),
{
    let mut args: Vec<(Slot, Filler)> = Vec::new();
    args.push((slot, value));
    let r = Sentence { phrase: p, args };
    assert(r@.args =~= seq![(slot, value@)]);
    r
}

pub fn say_about2(p: Phrase, slot1: Slot, value1: Filler, slot2: Slot, value2: Filler) -> (r: Sentence)
    ensures
        r@ == about2(p, slot1, value1@, slot2, value2@),
{
    let mut args: Vec<(Slot, Filler)> = Vec::new();
    args.push((slot1, value1));
    args.push((slot2, value2));
    let r = Sentence { phrase: p, args };
    assert(r@.args =~= seq![(slot1, value1@), (slot2, value2@)]);
    r
}

pub fn say_about3(
    p: Phrase,
    slot1: Slot,
    value1: Filler,
    slot2: Slot,
    value2: Filler,
    slot3: Slot,
    value3: Filler,
) -> (r: Sentence)
    ensures
        r@ == about3(p, slot1, value1@, slot2, value2@, slot3, value3@),
{
    let mut args: Vec<(Slot, Filler)> = Vec::new();
    args.push((slot1, value1));
    args.push((slot2, value2));
    args.push((slot3, value3));
    let r = Sentence { phrase: p, args };
    assert(r@.args =~= seq![(slot1, value1@), (slot2, value2@), (slot3, value3@)]);
    r
}

/// A value that is a text.
pub fn text_value(s: &str) -> (r: Filler)
    ensures
        r@ == FillerModel::Text(s@),
{
    Filler::Text(s.to_owned())
}

fn copy_value(v: &Filler) -> (r: Filler)
    ensures
        r@ == v@,
{
    match v {
        Filler::Text(s) => Filler::Text(s.clone()),
        Filler::Days(n) => Filler::Days(*n),
        Filler::Duration(n) => Filler::Duration(*n),
        Filler::Date(n) => Filler::Date(*n),
        Filler::Time(n) => Filler::Time(*n),
        Filler::Said(p, s) => Filler::Said(*p, s.clone()),
    }
}

impl Clone for Sentence {
    fn clone(&self) -> (r: Self)
        ensures
            r@ == self@,
    {
        let mut args: Vec<(Slot, Filler)> = Vec::new();
        let mut i: usize = 0;
        while i < self.args.len()
            invariant
                i <= self.args@.len(),
                args@.len() == i,
                forall|k: int| 0 <= k < i ==> (#[trigger] args@[k]).0 == self.args@[k].0
                    && args@[k].1@ == self.args@[k].1@,
            decreases self.args@.len() - i,
        {
            args.push((self.args[i].0, copy_value(&self.args[i].1)));
            i = i + 1;
        }
        let r = Sentence { phrase: self.phrase, args };
        assert(r@.args =~= self@.args);
        r
    }
}

impl Sentence {
    /// Whether anything is said at all.
    pub fn is_empty(&self) -> (r: bool)
        ensures
            r == (self@.phrase is Silence),
    {
        matches!(self.phrase, Phrase::Silence)
    }
}

// ------------------------------------------------------------------------ laws

/// A sentence is its phrase and what fills its places, each place named and in order.
pub proof fn law_a_sentence_is_its_phrase_and_fillers(
    p: Phrase,
    a: (Slot, FillerModel),
    b: (Slot, FillerModel),
    c: (Slot, FillerModel),
)
    ensures
        plain(p).phrase == p && plain(p).args.len() == 0,
        about(p, a.0, a.1).phrase == p && about(p, a.0, a.1).args == seq![a],
        about2(p, a.0, a.1, b.0, b.1).phrase == p && about2(p, a.0, a.1, b.0, b.1).args == seq![a, b],
        about3(p, a.0, a.1, b.0, b.1, c.0, c.1).phrase == p && about3(
            p,
            a.0,
            a.1,
            b.0,
            b.1,
            c.0,
            c.1,
        ).args == seq![a, b, c],
{
}

} // verus!
