//! What leaves the UI thread and what it reports back.
//!
//! A worker never touches agent state: it is handed a job, and it reports an
//! [`Event`], which [`apply`] turns into the next state and into what the caller
//! has to carry out. So this is the one place where every transition of the
//! state machine is legible.

use super::schedule;
use super::schedule::{
    days_left, is_moment, is_the_grants, midpoint_with, next_backoff, random_number, FALLBACK_POLL_SECS,
    MIN_REFRESH_DELAY, PROBE_MAX_SECS, STARTUP_RETRY_BOUNDED_SECS, STARTUP_RETRY_SECS,
};
use super::{
    host_of, Agent, AgentModel, Notice, NoticeModel, NtlmFallback, Outcome, OutcomeModel, Phase,
    Severity, Trigger,
};
use crate::config::{Grant, GrantModel};
use crate::describe::{Action, Fault};
use crate::discovery::{
    Defaults, DeviceGrantConfig, DeviceGrantModel, KerberosConfig, KerberosModel,
};
use crate::lists;
use crate::sentence;
use crate::sentence::{
    say, say_about, say_about2, text_value, Phrase, Sentence, SentenceModel, Slot, Filler, FillerModel,
};
use crate::text;
use vstd::prelude::*;
use vstd::string::*;

verus! {

/// A ticket that an exchange put into the cache.
pub struct Injected {
    pub principal: String,
    pub start: i64,
    pub end: i64,
    pub renew_till: i64,
}

#[verifier::ext_equal]
pub struct InjectedModel {
    pub principal: Seq<char>,
    pub start: i64,
    pub end: i64,
    pub renew_till: i64,
}

impl View for Injected {
    type V = InjectedModel;

    open spec fn view(&self) -> InjectedModel {
        InjectedModel {
            principal: self.principal@,
            start: self.start,
            end: self.end,
            renew_till: self.renew_till,
        }
    }
}

/// What a worker reports back.
pub enum Event {
    SignedIn {
        injected: Injected,
        kerberos: KerberosConfig,
        device_grant: DeviceGrantConfig,
        help_url: Option<String>,
        idp_name: String,
        /// The exchange was proved with this machine's grant, so the principal
        /// that came back is what the grant works as.
        via_grant: bool,
    },
    SignInFailed {
        /// What class of failure it was, or `None` where nothing failed and
        /// there was simply nothing to be silent with.
        fault: Option<Fault>,
        message: Sentence,
        quiet: bool,
    },
    Cancelled,
    /// An elevated one-shot finished.
    Elevated { action: Action, outcome: Outcome, recheck_enrollment: bool },
    /// DNS answered with a broker for a client that had none configured.
    BrokerDiscovered { url: String },
    /// What `/config` said, reported the moment it is read rather than only
    /// when a sign-in built on it lands.
    Discovered {
        kerberos: KerberosConfig,
        device_grant: DeviceGrantConfig,
        defaults: Defaults,
        help_url: Option<String>,
        idp_name: String,
        source: String,
    },
    /// This machine may now skip the browser sign-in.
    GrantCreated { grant: Grant },
    /// It may not, and this is why.
    GrantFailed { fault: Option<Fault>, message: Sentence },
    /// The cloud logout finished. `asked` is whether the authority was reached at
    /// all.
    CloudSignedOut { asked: bool },
    /// The revoke worker finished. The key on this device is gone either way;
    /// `revoked` is whether the broker was told, and `saved` whether this device
    /// could update its own record.
    GrantGivenUp { revoked: bool, saved: bool },
    /// The elevation prompt has been answered and the child is running.
    ElevationGranted { action: Action },
}

/// What a worker flagged besides its event.
#[derive(Clone, Copy, PartialEq, Eq, Debug, Structural)]
pub struct Flags {
    /// The broker refused the stored grant: it is dead.
    pub grant_stale: bool,
    /// A browser leg has obtained tokens, so a session of ours exists there.
    pub new_browser_session: bool,
}

/// What the caller of a transition has to carry out.
pub struct Effects {
    /// Write the settings file.
    pub save: bool,
    /// Whether a failure to write it belongs into the outcome below: see
    /// [`Effects::saved`].
    pub report_unsaved: bool,
    /// Ask the OS what it knows of the realm, and hand the answer to
    /// [`Agent::enrollment_checked`].
    pub recheck_enrollment: bool,
    /// Settle the login entry again, with [`crate::config::Settings::enforce_autostart`]:
    /// the deployment's default only arrives with `/config`.
    pub settle_autostart: bool,
    pub notice: Option<Notice>,
    pub finished: Option<(Action, Outcome)>,
    pub elevating: Option<Action>,
    /// Start a worker, with [`Agent::start_worker`].
    pub start: Option<Trigger>,
}

#[verifier::ext_equal]
pub struct EffectsModel {
    pub save: bool,
    pub report_unsaved: bool,
    pub recheck_enrollment: bool,
    pub settle_autostart: bool,
    pub notice: Option<NoticeModel>,
    pub finished: Option<(Action, OutcomeModel)>,
    pub elevating: Option<Action>,
    pub start: Option<Trigger>,
}

impl View for Effects {
    type V = EffectsModel;

    open spec fn view(&self) -> EffectsModel {
        EffectsModel {
            save: self.save,
            report_unsaved: self.report_unsaved,
            recheck_enrollment: self.recheck_enrollment,
            settle_autostart: self.settle_autostart,
            notice: match self.notice {
                Some(n) => Some(n@),
                None => None,
            },
            finished: match self.finished {
                Some((a, o)) => Some((a, o@)),
                None => None,
            },
            elevating: self.elevating,
            start: self.start,
        }
    }
}

/// Nothing to carry out.
pub open spec fn no_effects() -> EffectsModel {
    EffectsModel {
        save: false,
        report_unsaved: false,
        recheck_enrollment: false,
        settle_autostart: false,
        notice: None,
        finished: None,
        elevating: None,
        start: None,
    }
}

impl EffectsModel {
    /// Once the settings were written, or could not be: an outcome that promises
    /// something that was to be written down says so when it was not.
    pub open spec fn after_save(self, ok: bool) -> EffectsModel {
        EffectsModel {
            save: false,
            report_unsaved: false,
            finished: match self.finished {
                Some((a, OutcomeModel::Done { message, detail })) if self.report_unsaved && !ok => Some(
                    (
                        a,
                        OutcomeModel::Done {
                            message,
                            detail: detail.push(sentence::plain(Phrase::DlgGrantUnsaved)),
                        },
                    ),
                ),
                _ => self.finished,
            },
            ..self
        }
    }
}

impl Effects {
    fn none() -> (r: Self)
        ensures
            r@ == no_effects(),
    {
        Effects {
            save: false,
            report_unsaved: false,
            recheck_enrollment: false,
            settle_autostart: false,
            notice: None,
            finished: None,
            elevating: None,
            start: None,
        }
    }

    /// What is left to carry out once the settings file was written (`ok`), or
    /// could not be.
    pub fn saved(self, ok: bool) -> (r: Self)
        ensures
            r@ == self@.after_save(ok),
    {
        let report = self.report_unsaved && !ok;
        let finished = match self.finished {
            Some((a, Outcome::Done { message, detail })) => {
                let mut detail = detail;
                let ghost was = detail@;
                if report {
                    detail.push(say(Phrase::DlgGrantUnsaved));
                    assert(sentence::sentences(detail@) =~= sentence::sentences(was).push(
                        sentence::plain(Phrase::DlgGrantUnsaved),
                    ));
                }
                Some((a, Outcome::Done { message, detail }))
            },
            other => other,
        };
        Effects { save: false, report_unsaved: false, finished, ..self }
    }
}

// ----------------------------------------------------------- the transitions

/// Whether a worker that held the busy slot reports in with `ev`. The broker
/// lookup, the cloud logout and the revoke run outside the slot; a discovery is
/// reported from the middle of a sign-in that is still running, and so is the
/// answer to an elevation prompt.
pub open spec fn ends_slot(ev: Event) -> bool {
    !(ev is BrokerDiscovered || ev is Discovered || ev is CloudSignedOut || ev is GrantGivenUp
        || ev is ElevationGranted)
}

impl AgentModel {
    /// With the busy slot free, and whatever held it no longer running.
    pub open spec fn freed(self) -> AgentModel {
        AgentModel {
            busy: false,
            in_flight: self.in_flight.filter(|a: Action| a.slotless()),
            ..self
        }
    }

    /// What every event goes through before its own transition: the slot it
    /// frees, the grant that died, the browser session that began.
    #[verifier::opaque]
    pub open spec fn received(self, ev: Event, flags: Flags) -> AgentModel {
        let m = if ends_slot(ev) {
            self.freed()
        } else {
            self
        };
        let m = if flags.grant_stale {
            AgentModel { settings: m.settings.holding(None), ..m }
        } else {
            m
        };
        if flags.new_browser_session {
            AgentModel { settings: m.settings.with_session(true), ..m }
        } else {
            m
        }
    }

    /// Whether that changed the settings file.
    pub open spec fn received_saves(self, flags: Flags) -> bool {
        (flags.grant_stale && self.settings.file.grant is Some) || (flags.new_browser_session
            && !self.settings.file.browser_session)
    }

    /// The realm that a discovery or a sign-in named, remembered.
    pub open spec fn in_realm(self, k: KerberosModel) -> AgentModel {
        AgentModel { settings: self.settings.caching(k), kerberos: k, ..self }
    }

    /// A landed exchange: everything about the session is this ticket's, every
    /// failure is over, and the next renewal is halfway to its end.
    pub open spec fn connected(
        self,
        injected: InjectedModel,
        device_grant: DeviceGrantModel,
        help_url: Option<Seq<char>>,
        idp_name: Seq<char>,
        now: i64,
        random: Option<u64>,
    ) -> AgentModel {
        AgentModel {
            principal: injected.principal,
            start: injected.start,
            end: injected.end,
            renew_till: injected.renew_till,
            phase: Phase::Connected,
            message: sentence::plain(Phrase::Silence),
            fault: None,
            first_failure_at: None,
            silent_failed: false,
            escalated: false,
            refresh_backoff: 0,
            refresh_at: Some(
                schedule::midpoint_of(now as int, injected.end as int, random) as i64,
            ),
            startup_retry_at: None,
            startup_retries: 0,
            startup_backoff: 0,
            device_grant,
            help_url,
            idp_name,
            granted_exchange_pending: false,
            just_authorized: self.just_authorized && self.granted_exchange_pending,
            fallback: NtlmFallback::Clear,
            fallback_check_at: (now + FALLBACK_POLL_SECS) as i64,
            ..self
        }
    }

    /// The notification of a session that starts, or of a fault that clears. A
    /// renewal that simply worked is no news.
    pub open spec fn ready_notice(self, now: i64) -> NoticeModel {
        NoticeModel {
            title: sentence::about(
                Phrase::NotifyReadyTitle,
                Slot::Realm,
                FillerModel::Text(self.kerberos.realm),
            ),
            body: sentence::about2(
                Phrase::NotifyReadyBody,
                Slot::Identity,
                FillerModel::Said(
                    if self.settings.grant_for() is Some {
                        Phrase::IdWorkingAs
                    } else {
                        Phrase::IdSignedInAs
                    },
                    self.principal,
                ),
                Slot::Duration,
                FillerModel::Duration((self.end - now) as i64),
            ),
            severity: Severity::Info,
        }
    }
}

#[verifier::opaque]
pub open spec fn signed_in(
    m: AgentModel,
    injected: InjectedModel,
    kerberos: KerberosModel,
    device_grant: DeviceGrantModel,
    help_url: Option<Seq<char>>,
    idp_name: Seq<char>,
    via_grant: bool,
    now: i64,
    random: Option<u64>,
) -> (AgentModel, EffectsModel) {
    let news = !(m.phase is Connected) || m.fault is Some || m.silent_failed;
    let a = if via_grant {
        AgentModel { settings: m.settings.working_as(injected.principal), ..m }
    } else {
        m
    };
    let b = a.connected(injected, device_grant, help_url, idp_name, now, random);
    let c = if kerberos.realm.len() > 0 {
        b.in_realm(kerberos)
    } else {
        b
    };
    let d = c.expecting(true);
    (
        d,
        EffectsModel {
            save: d.settings.file != m.settings.file,
            recheck_enrollment: kerberos.realm.len() > 0,
            notice: if news {
                Some(d.ready_notice(now))
            } else {
                None
            },
            ..no_effects()
        },
    )
}

/// A failure does not invalidate the ticket already in the cache. With one, the
/// schedule goes on, sooner after a network failure but never later than the
/// midpoint; without one, a quiet attempt is retried and a loud one is announced.
#[verifier::opaque]
pub open spec fn sign_in_failed(
    m: AgentModel,
    fault: Option<Fault>,
    message: SentenceModel,
    quiet: bool,
    now: i64,
    random: Option<u64>,
) -> (AgentModel, EffectsModel) {
    let fresh = m.first_failure_at is None;
    let r = m.recording(fault, message, now);
    let network = fault == Some(Fault::Network);
    if r.live(now) {
        let backoff = if fresh {
            MIN_REFRESH_DELAY as int
        } else {
            schedule::backoff_of(
                r.refresh_backoff as int,
                MIN_REFRESH_DELAY as int,
                PROBE_MAX_SECS as int,
            )
        };
        let mid = schedule::midpoint_of(now as int, r.end as int, random);
        (
            AgentModel {
                phase: Phase::Connected,
                silent_failed: true,
                refresh_backoff: if network {
                    backoff as i64
                } else {
                    r.refresh_backoff
                },
                refresh_at: if network {
                    Some(
                        (if now + backoff < mid {
                            now + backoff
                        } else {
                            mid
                        }) as i64,
                    )
                } else {
                    r.refresh_at
                },
                ..r
            },
            no_effects(),
        )
    } else if quiet {
        let backoff = if fresh {
            STARTUP_RETRY_SECS as int
        } else {
            schedule::backoff_of(
                r.startup_backoff as int,
                STARTUP_RETRY_SECS as int,
                PROBE_MAX_SECS as int,
            )
        };
        let again = !network && r.startup_retries > 0;
        (
            AgentModel {
                phase: Phase::SignedOut,
                startup_backoff: if network {
                    backoff as i64
                } else {
                    r.startup_backoff
                },
                startup_retries: if again {
                    (r.startup_retries - 1) as u8
                } else {
                    r.startup_retries
                },
                startup_retry_at: if network {
                    Some((now + backoff) as i64)
                } else if again {
                    Some((now + STARTUP_RETRY_BOUNDED_SECS) as i64)
                } else {
                    r.startup_retry_at
                },
                ..r
            },
            no_effects(),
        )
    } else {
        (
            AgentModel { phase: Phase::Error, ..r },
            EffectsModel {
                notice: Some(
                    NoticeModel {
                        title: sentence::plain(Phrase::CondStopped),
                        body: message,
                        severity: Severity::Error,
                    },
                ),
                ..no_effects()
            },
        )
    }
}

/// Cancelling a sign-in must not throw away a session that is still working.
#[verifier::opaque]
pub open spec fn cancelled(m: AgentModel, now: i64) -> AgentModel {
    if m.phase is SigningIn {
        AgentModel {
            phase: if m.live(now) {
                Phase::Connected
            } else {
                Phase::SignedOut
            },
            ..m
        }
    } else {
        m
    }
}

/// The broker answered: a standing network failure is over, a realm is taken
/// where there was none, and the grant policy only ever fills a gap. What the deployment
/// prefers is remembered for this run, below every choice that was made here.
#[verifier::opaque]
pub open spec fn discovered(
    m: AgentModel,
    kerberos: KerberosModel,
    device_grant: DeviceGrantModel,
    defaults: Defaults,
    help_url: Option<Seq<char>>,
    idp_name: Seq<char>,
    source: Seq<char>,
    now: i64,
) -> (AgentModel, EffectsModel) {
    let a = if m.fault == Some(Fault::Network) {
        m.recording(None, sentence::plain(Phrase::Silence), now)
    } else {
        m
    };
    let takes = kerberos.realm.len() > 0 && a.kerberos.realm.len() == 0;
    let b = if takes {
        a.in_realm(kerberos)
    } else {
        a
    };
    (
        AgentModel {
            device_grant: if b.device_grant.days == 0 {
                device_grant
            } else {
                b.device_grant
            },
            settings: crate::config::SettingsModel { defaults, ..b.settings },
            help_url,
            idp_name,
            source,
            ..b
        },
        EffectsModel {
            save: takes && m.settings.file.cache != kerberos,
            recheck_enrollment: takes,
            settle_autostart: true,
            ..no_effects()
        },
    )
}

/// A broker from DNS is taken only where nobody named one, and is asked at once.
#[verifier::opaque]
pub open spec fn broker_discovered(m: AgentModel, url: Seq<char>, now: i64) -> AgentModel {
    if m.settings.broker_url() is None {
        AgentModel {
            settings: crate::config::SettingsModel { discovered: Some(url), ..m.settings },
            startup_retry_at: Some(now),
            ..m
        }
    } else {
        m
    }
}

/// A grant is permission to get tickets, not a ticket: unless the session in the
/// cache is already the grant's own, an exchange follows.
#[verifier::opaque]
pub open spec fn grant_created(m: AgentModel, grant: GrantModel, now: i64) -> (
    AgentModel,
    EffectsModel,
) {
    let exchange = !schedule::grants_own(
        Some(grant),
        m.settings.grant_for() is Some,
        m.principal,
    ) || !(m.phase is Connected);
    (
        AgentModel {
            settings: m.settings.holding(Some(grant)),
            just_authorized: true,
            granted_exchange_pending: exchange,
            message: if m.settings.file.browser_session {
                sentence::about(Phrase::GrantedNote, Slot::Idp, FillerModel::Text(m.idp_name))
            } else {
                sentence::plain(Phrase::GrantedNoteWam)
            },
            fault: None,
            ..m
        },
        EffectsModel {
            save: true,
            report_unsaved: true,
            finished: Some(
                (
                    Action::CreateGrant,
                    OutcomeModel::Done {
                        message: sentence::about(
                            Phrase::GrantDone,
                            Slot::Days,
                            FillerModel::Days(
                                schedule::days_to(
                                    grant.sign_in_required_by as int,
                                    now as int,
                                ) as i64,
                            ),
                        ),
                        detail: Seq::empty(),
                    },
                ),
            ),
            start: if exchange {
                Some(Trigger::Granted)
            } else {
                None
            },
            ..no_effects()
        },
    )
}

/// Two independent facts, and a third when this device could not even write down
/// that it no longer holds a grant.
#[verifier::opaque]
pub open spec fn grant_given_up(m: AgentModel, revoked: bool, saved: bool) -> (
    AgentModel,
    EffectsModel,
) {
    let broker = match m.settings.broker_url() {
        Some(url) => super::host_part(url),
        None => Seq::empty(),
    };
    let fact = sentence::about(
        if revoked {
            Phrase::DlgGrantOffResultSub
        } else {
            Phrase::DlgGrantOffResultStale
        },
        Slot::Broker,
        FillerModel::Text(broker),
    );
    (
        m.without(Action::GiveUpGrant),
        EffectsModel {
            finished: Some(
                (
                    Action::GiveUpGrant,
                    OutcomeModel::Done {
                        message: sentence::plain(Phrase::DlgGrantOffResult),
                        detail: if saved {
                            seq![fact]
                        } else {
                            seq![fact, sentence::plain(Phrase::DlgGrantUnsaved)]
                        },
                    },
                ),
            ),
            ..no_effects()
        },
    )
}

/// A successful elevated step during an episode is the repair it asked for. It
/// asks for a ticket and leaves the episode open: only a landed exchange ends it.
#[verifier::opaque]
pub open spec fn elevated(
    m: AgentModel,
    action: Action,
    outcome: OutcomeModel,
    recheck: bool,
    now: i64,
) -> (AgentModel, EffectsModel) {
    let a = if outcome is Done && !(m.fallback is Clear) {
        AgentModel { refresh_at: Some(now), ..m }
    } else {
        m
    };
    let b = match outcome {
        OutcomeModel::Failed { message } => a.recording(Some(Fault::Other), message, now),
        _ => a,
    };
    (
        b,
        EffectsModel {
            recheck_enrollment: recheck,
            finished: Some((action, outcome)),
            ..no_effects()
        },
    )
}

/// Recorded, not just announced: every refusal needs somebody else to act, so the
/// answer has to still be on the surface when the user goes looking for it.
#[verifier::opaque]
pub open spec fn grant_failed(
    m: AgentModel,
    fault: Option<Fault>,
    message: SentenceModel,
    now: i64,
) -> (AgentModel, EffectsModel) {
    (
        m.recording(fault, message, now),
        EffectsModel {
            finished: Some((Action::CreateGrant, OutcomeModel::Failed { message })),
            ..no_effects()
        },
    )
}

/// Forgetting the session is what makes the offer go away, so it waits for the
/// trip that was the point of the offer.
#[verifier::opaque]
pub open spec fn cloud_signed_out(m: AgentModel, asked: bool) -> (AgentModel, EffectsModel) {
    let a = m.without(Action::SignOutIdp);
    (
        if asked {
            AgentModel { settings: a.settings.with_session(false), ..a }
        } else {
            a
        },
        EffectsModel { save: asked && m.settings.file.browser_session, ..no_effects() },
    )
}

/// What an event alone does, past what every event does.
pub open spec fn event_step(m: AgentModel, ev: Event, now: i64, random: Option<u64>) -> (
    AgentModel,
    EffectsModel,
) {
    match ev {
        Event::SignedIn { injected, kerberos, device_grant, help_url, idp_name, via_grant } => {
            signed_in(
                m,
                injected@,
                kerberos@,
                device_grant@,
                text::opt_text(help_url),
                idp_name@,
                via_grant,
                now,
                random,
            )
        },
        Event::SignInFailed { fault, message, quiet } => sign_in_failed(
            m,
            fault,
            message@,
            quiet,
            now,
            random,
        ),
        Event::Cancelled => (cancelled(m, now), no_effects()),
        Event::Elevated { action, outcome, recheck_enrollment } => elevated(
            m,
            action,
            outcome@,
            recheck_enrollment,
            now,
        ),
        Event::BrokerDiscovered { url } => (broker_discovered(m, url@, now), no_effects()),
        Event::Discovered { kerberos, device_grant, defaults, help_url, idp_name, source } => {
            discovered(
                m,
                kerberos@,
                device_grant@,
                defaults,
                text::opt_text(help_url),
                idp_name@,
                source@,
                now,
            )
        },
        Event::GrantCreated { grant } => grant_created(m, grant@, now),
        Event::GrantFailed { fault, message } => grant_failed(m, fault, message@, now),
        Event::CloudSignedOut { asked } => cloud_signed_out(m, asked),
        Event::GrantGivenUp { revoked, saved } => grant_given_up(m, revoked, saved),
        Event::ElevationGranted { action } => (
            m,
            EffectsModel { elevating: Some(action), ..no_effects() },
        ),
    }
}

/// The next state and what is to be carried out.
pub open spec fn applied(
    m: AgentModel,
    ev: Event,
    flags: Flags,
    now: i64,
    random: Option<u64>,
) -> (AgentModel, EffectsModel) {
    let (a, fx) = event_step(m.received(ev, flags), ev, now, random);
    (a, EffectsModel { save: fx.save || m.received_saves(flags), ..fx })
}

/// Events whose times the agent can compute with.
pub open spec fn timely(ev: Event) -> bool {
    match ev {
        Event::SignedIn { injected, .. } => schedule::moment(injected.start) && schedule::moment(
            injected.end,
        ) && schedule::moment(injected.renew_till),
        _ => true,
    }
}

fn keep_slotless(v: &Vec<Action>) -> (out: Vec<Action>)
    ensures
        out@ == v@.filter(|a: Action| a.slotless()),
{
    let ghost p = |a: Action| a.slotless();
    let mut out: Vec<Action> = Vec::new();
    let mut i: usize = 0;
    proof {
        assert(v@.take(0) =~= Seq::empty());
        lists::filter_empty(p);
    }
    while i < v.len()
        invariant
            i <= v@.len(),
            p == (|a: Action| a.slotless()),
            out@ == v@.take(i as int).filter(p),
        decreases v@.len() - i,
    {
        let a = v[i];
        proof {
            assert(v@.take(i + 1) =~= v@.take(i as int).push(a));
            lists::filter_push(v@.take(i as int), a, p);
        }
        if a.outside_busy_slot() {
            out.push(a);
        }
        i = i + 1;
    }
    assert(v@.take(i as int) =~= v@);
    out
}

fn keep_others(v: &Vec<Action>, action: Action) -> (out: Vec<Action>)
    ensures
        out@ == super::others(v@, action),
{
    let ghost p = super::other_than(action);
    let mut out: Vec<Action> = Vec::new();
    let mut i: usize = 0;
    proof {
        assert(v@.take(0) =~= Seq::empty());
        lists::filter_empty(p);
    }
    while i < v.len()
        invariant
            i <= v@.len(),
            p == super::other_than(action),
            out@ == v@.take(i as int).filter(p),
        decreases v@.len() - i,
    {
        let a = v[i];
        proof {
            assert(v@.take(i + 1) =~= v@.take(i as int).push(a));
            lists::filter_push(v@.take(i as int), a, p);
        }
        if a != action {
            out.push(a);
        }
        i = i + 1;
    }
    assert(v@.take(i as int) =~= v@);
    out
}

impl Agent {
    /// What the OS answered to a recheck of the realm's enrollment.
    pub fn enrollment_checked(&mut self, state: crate::enroll::State)
        ensures
            final(self)@ == (AgentModel { enroll_state: state@, ..old(self)@ }),
    {
        self.enroll_state = state;
    }

    fn receive(&mut self, ev: &Event, flags: Flags) -> (save: bool)
        requires
            old(self)@.sound(),
        ensures
            final(self)@ == old(self)@.received(*ev, flags),
            save == old(self)@.received_saves(flags),
            final(self)@.sound(),
    {
        proof {
            reveal(AgentModel::received);
        }
        let mut save = false;
        if !matches!(
            ev,
            Event::BrokerDiscovered { .. } | Event::Discovered { .. } | Event::CloudSignedOut { .. }
            | Event::GrantGivenUp { .. } | Event::ElevationGranted { .. }
        ) {
            self.busy = false;
            self.in_flight = keep_slotless(&self.in_flight);
        }
        if flags.grant_stale {
            save = self.settings.grant().is_some();
            self.settings.set_grant(None);
        }
        if flags.new_browser_session && self.settings.set_browser_session(true) {
            save = true;
        }
        save
    }

    fn on_signed_in(
        &mut self,
        injected: Injected,
        kerberos: KerberosConfig,
        device_grant: DeviceGrantConfig,
        help_url: Option<String>,
        idp_name: String,
        via_grant: bool,
        now: i64,
        random: Option<u64>,
    ) -> (fx: Effects)
        requires
            schedule::clock(now),
            schedule::moment(injected.start),
            schedule::moment(injected.end),
            schedule::moment(injected.renew_till),
            old(self)@.sound(),
        ensures
            ({
                let next = signed_in(
                    old(self)@,
                    injected@,
                    kerberos@,
                    device_grant@,
                    text::opt_text(help_url),
                    idp_name@,
                    via_grant,
                    now,
                    random,
                );
                final(self)@ == next.0 && fx@ == next.1
            }),
            final(self)@.sound(),
    {
        proof {
            reveal(signed_in);
        }
        let ghost m = self@;
        let news = !matches!(self.phase, Phase::Connected) || self.fault.is_some()
            || self.silent_failed;
        let mut save = false;
        // Recorded before anything else reads it: this is how a later startup
        // knows the ticket in the cache is this machine's own.
        if via_grant && self.settings.set_grant_principal(injected.principal.as_str()) {
            save = true;
        }
        let ghost a = self@;
        let mid: i64 = midpoint_with(now, injected.end, random);
        self.principal = injected.principal;
        self.start = injected.start;
        self.end = injected.end;
        self.renew_till = injected.renew_till;
        self.phase = Phase::Connected;
        self.message = say(Phrase::Silence);
        self.fault = None;
        self.first_failure_at = None;
        self.silent_failed = false;
        self.escalated = false;
        self.refresh_backoff = 0;
        self.refresh_at = Some(mid);
        self.startup_retry_at = None;
        self.startup_retries = 0;
        self.startup_backoff = 0;
        self.device_grant = device_grant;
        self.help_url = help_url;
        self.idp_name = idp_name;
        // Everything except the exchange a fresh grant started itself: that one
        // is the second half of the authorization the user just performed.
        if self.granted_exchange_pending {
            self.granted_exchange_pending = false;
        } else {
            self.just_authorized = false;
        }
        // A landed exchange is what ends a fallback episode and re-arms detection.
        self.fallback = NtlmFallback::Clear;
        self.fallback_check_at = now + FALLBACK_POLL_SECS;
        let ghost b = self@;
        let realm_known = !kerberos.realm.as_str().is_empty();
        if realm_known {
            if self.settings.set_cache(&kerberos) {
                save = true;
            }
            self.kerberos = kerberos;
        }
        let ghost c = self@;
        // After the realm is current, because that is half of the scope.
        if self.expect(true) {
            save = true;
        }
        proof {
            let file = self@.settings.file;
            assert(a == (if via_grant {
                AgentModel { settings: m.settings.working_as(injected@.principal), ..m }
            } else {
                m
            }));
            assert(b == a.connected(injected@, device_grant@, text::opt_text(help_url), idp_name@, now, random));
            if !save {
                assert(file =~= m.settings.file);
            }
            if via_grant && m.settings.file.grant is Some && m.settings.file.grant->0.principal
                != Some(injected@.principal) {
                assert(file.grant != m.settings.file.grant);
            }
        }
        let notice = if news {
            let identity = Filler::Said(
                if self.settings.grant_for().is_some() {
                    Phrase::IdWorkingAs
                } else {
                    Phrase::IdSignedInAs
                },
                self.principal.clone(),
            );
            Some(
                Notice {
                    title: say_about(
                        Phrase::NotifyReadyTitle,
                        Slot::Realm,
                        text_value(self.kerberos.realm.as_str()),
                    ),
                    body: say_about2(
                        Phrase::NotifyReadyBody,
                        Slot::Identity,
                        identity,
                        Slot::Duration,
                        Filler::Duration(self.end - now),
                    ),
                    severity: Severity::Info,
                },
            )
        } else {
            None
        };
        Effects { save, recheck_enrollment: realm_known, notice, ..Effects::none() }
    }

    fn on_sign_in_failed(
        &mut self,
        fault: Option<Fault>,
        message: Sentence,
        quiet: bool,
        now: i64,
        random: Option<u64>,
    ) -> (fx: Effects)
        requires
            schedule::clock(now),
            old(self)@.sound(),
        ensures
            ({
                let next = sign_in_failed(old(self)@, fault, message@, quiet, now, random);
                final(self)@ == next.0 && fx@ == next.1
            }),
            final(self)@.sound(),
    {
        proof {
            reveal(sign_in_failed);
        }
        let fresh_streak = self.first_failure_at.is_none();
        let network = matches!(fault, Some(Fault::Network));
        let said = message.clone();
        self.record(fault, message, now);
        if self.holds_live_ticket(now) {
            // Silent, deliberately: the ticket still works and the condition has
            // not moved. What this arms is the escalation in the tick.
            self.phase = Phase::Connected;
            self.silent_failed = true;
            // A refused credential is not retried sooner: hammering that helps
            // nothing and risks the IdP's own lockout policy.
            if network {
                self.refresh_backoff = if fresh_streak {
                    MIN_REFRESH_DELAY
                } else {
                    next_backoff(self.refresh_backoff, MIN_REFRESH_DELAY, PROBE_MAX_SECS)
                };
                let mid: i64 = midpoint_with(now, self.end, random);
                let soon: i64 = now + self.refresh_backoff;
                self.refresh_at = Some(
                    if soon < mid {
                        soon
                    } else {
                        mid
                    },
                );
            }
            return Effects::none();
        }
        if quiet {
            // Nobody asked for this one. Leave the agent exactly as a logon with
            // no credential should look.
            self.phase = Phase::SignedOut;
            if network {
                self.startup_backoff = if fresh_streak {
                    STARTUP_RETRY_SECS
                } else {
                    next_backoff(self.startup_backoff, STARTUP_RETRY_SECS, PROBE_MAX_SECS)
                };
                self.startup_retry_at = Some(now + self.startup_backoff);
            } else if self.startup_retries > 0 {
                self.startup_retries = self.startup_retries - 1;
                self.startup_retry_at = Some(now + STARTUP_RETRY_BOUNDED_SECS);
            }
            return Effects::none();
        }
        // Somebody asked for this, and there is no ticket to show for it.
        self.phase = Phase::Error;
        Effects {
            notice: Some(
                Notice { title: say(Phrase::CondStopped), body: said, severity: Severity::Error },
            ),
            ..Effects::none()
        }
    }

    fn on_cancelled(&mut self, now: i64)
        requires
            old(self)@.sound(),
        ensures
            final(self)@ == cancelled(old(self)@, now),
            final(self)@.sound(),
    {
        proof {
            reveal(cancelled);
        }
        if matches!(self.phase, Phase::SigningIn) {
            self.phase = if self.holds_live_ticket(now) {
                Phase::Connected
            } else {
                Phase::SignedOut
            };
        }
    }

    #[verifier::rlimit(50)]
    #[verifier::spinoff_prover]
    fn on_discovered(
        &mut self,
        kerberos: KerberosConfig,
        device_grant: DeviceGrantConfig,
        defaults: Defaults,
        help_url: Option<String>,
        idp_name: String,
        source: String,
        now: i64,
    ) -> (fx: Effects)
        requires
            schedule::clock(now),
            old(self)@.sound(),
        ensures
            ({
                let next = discovered(
                    old(self)@,
                    kerberos@,
                    device_grant@,
                    defaults,
                    text::opt_text(help_url),
                    idp_name@,
                    source@,
                    now,
                );
                final(self)@ == next.0 && fx@ == next.1
            }),
            final(self)@.sound(),
    {
        proof {
            reveal(discovered);
        }
        if matches!(self.fault, Some(Fault::Network)) {
            self.record(None, say(Phrase::Silence), now);
        }
        let mut save = false;
        let takes = !kerberos.realm.as_str().is_empty() && self.kerberos.realm.as_str().is_empty();
        if takes {
            save = self.settings.set_cache(&kerberos);
            self.kerberos = kerberos;
        }
        if self.device_grant.days == 0 {
            self.device_grant = device_grant;
        }
        self.settings.set_defaults(defaults);
        self.help_url = help_url;
        self.idp_name = idp_name;
        self.source = source;
        Effects { save, recheck_enrollment: takes, settle_autostart: true, ..Effects::none() }
    }

    fn on_broker_discovered(&mut self, url: String, now: i64)
        requires
            old(self)@.sound(),
        ensures
            final(self)@ == broker_discovered(old(self)@, url@, now),
            final(self)@.sound(),
    {
        proof {
            reveal(broker_discovered);
        }
        if self.settings.broker_url().is_none() {
            self.settings.set_discovered(url);
            // Nothing else will ask: the startup `/config` read is gated on a
            // broker already being configured, and the autostart sign-in has
            // already run and refused for the same reason.
            self.startup_retry_at = Some(now);
        }
    }

    fn on_grant_created(&mut self, grant: Grant, now: i64) -> (fx: Effects)
        requires
            schedule::clock(now),
            old(self)@.sound(),
        ensures
            ({
                let next = grant_created(old(self)@, grant@, now);
                final(self)@ == next.0 && fx@ == next.1
            }),
            final(self)@.sound(),
    {
        proof {
            reveal(grant_created);
        }
        let left: i64 = days_left(grant.sign_in_required_by, now);
        let pinned = self.settings.grant_for().is_some();
        let exchange = !is_the_grants(Some(&grant), pinned, self.principal.as_str()) || !matches!(
            self.phase,
            Phase::Connected
        );
        self.settings.set_grant(Some(grant));
        self.just_authorized = true;
        self.granted_exchange_pending = exchange;
        let said = if self.settings.browser_session() {
            say_about(Phrase::GrantedNote, Slot::Idp, text_value(self.idp_name.as_str()))
        } else {
            say(Phrase::GrantedNoteWam)
        };
        self.note(said);
        let detail: Vec<Sentence> = Vec::new();
        assert(sentence::sentences(detail@) =~= Seq::empty());
        Effects {
            save: true,
            report_unsaved: true,
            finished: Some(
                (
                    Action::CreateGrant,
                    Outcome::Done {
                        message: say_about(Phrase::GrantDone, Slot::Days, Filler::Days(left)),
                        detail,
                    },
                ),
            ),
            start: if exchange {
                Some(Trigger::Granted)
            } else {
                None
            },
            ..Effects::none()
        }
    }

    fn on_grant_given_up(&mut self, revoked: bool, saved: bool) -> (fx: Effects)
        requires
            old(self)@.sound(),
        ensures
            ({
                let next = grant_given_up(old(self)@, revoked, saved);
                final(self)@ == next.0 && fx@ == next.1
            }),
            final(self)@.sound(),
    {
        proof {
            reveal(grant_given_up);
        }
        self.in_flight = keep_others(&self.in_flight, Action::GiveUpGrant);
        let broker = match self.settings.broker_url() {
            Some(url) => host_of(url),
            None => String::new(),
        };
        let fact = say_about(
            if revoked {
                Phrase::DlgGrantOffResultSub
            } else {
                Phrase::DlgGrantOffResultStale
            },
            Slot::Broker,
            Filler::Text(broker),
        );
        let ghost f = fact@;
        let mut detail: Vec<Sentence> = Vec::new();
        detail.push(fact);
        if saved {
            assert(sentence::sentences(detail@) =~= seq![f]);
        } else {
            detail.push(say(Phrase::DlgGrantUnsaved));
            assert(sentence::sentences(detail@) =~= seq![
                f,
                sentence::plain(Phrase::DlgGrantUnsaved),
            ]);
        }
        Effects {
            finished: Some(
                (
                    Action::GiveUpGrant,
                    Outcome::Done { message: say(Phrase::DlgGrantOffResult), detail },
                ),
            ),
            ..Effects::none()
        }
    }

    fn on_grant_failed(&mut self, fault: Option<Fault>, message: Sentence, now: i64) -> (fx: Effects)
        requires
            schedule::clock(now),
            old(self)@.sound(),
        ensures
            ({
                let next = grant_failed(old(self)@, fault, message@, now);
                final(self)@ == next.0 && fx@ == next.1
            }),
            final(self)@.sound(),
    {
        proof {
            reveal(grant_failed);
        }
        let said = message.clone();
        self.record(fault, message, now);
        Effects {
            finished: Some((Action::CreateGrant, Outcome::Failed { message: said })),
            ..Effects::none()
        }
    }

    fn on_cloud_signed_out(&mut self, asked: bool) -> (fx: Effects)
        requires
            old(self)@.sound(),
        ensures
            ({
                let next = cloud_signed_out(old(self)@, asked);
                final(self)@ == next.0 && fx@ == next.1
            }),
            final(self)@.sound(),
    {
        proof {
            reveal(cloud_signed_out);
        }
        self.in_flight = keep_others(&self.in_flight, Action::SignOutIdp);
        let forgot = asked && self.settings.set_browser_session(false);
        Effects { save: forgot, ..Effects::none() }
    }

    fn on_elevated(&mut self, action: Action, outcome: Outcome, recheck: bool, now: i64) -> (fx:
        Effects)
        requires
            schedule::clock(now),
            old(self)@.sound(),
        ensures
            ({
                let next = elevated(old(self)@, action, outcome@, recheck, now);
                final(self)@ == next.0 && fx@ == next.1
            }),
            final(self)@.sound(),
    {
        proof {
            reveal(elevated);
        }
        if matches!(outcome, Outcome::Done { .. }) && !matches!(self.fallback, NtlmFallback::Clear) {
            self.refresh_at = Some(now);
        }
        // A failure is also a fault the surface has to keep showing after the
        // dialog is dismissed; a decline and a success are not.
        if let Outcome::Failed { message } = &outcome {
            self.record(Some(Fault::Other), message.clone(), now);
        }
        Effects {
            recheck_enrollment: recheck,
            finished: Some((action, outcome)),
            ..Effects::none()
        }
    }
}

/// One worker's result, for a given random number.
pub fn apply_with(a: &mut Agent, ev: Event, flags: Flags, now: i64, random: Option<u64>) -> (fx:
    Effects)
    requires
        schedule::clock(now),
        timely(ev),
        old(a)@.sound(),
    ensures
        final(a)@ == applied(old(a)@, ev, flags, now, random).0,
        fx@ == applied(old(a)@, ev, flags, now, random).1,
        final(a)@.sound(),
{
    let save = a.receive(&ev, flags);
    let mut fx = match ev {
        Event::SignedIn { injected, kerberos, device_grant, help_url, idp_name, via_grant } => {
            a.on_signed_in(
                injected,
                kerberos,
                device_grant,
                help_url,
                idp_name,
                via_grant,
                now,
                random,
            )
        },
        Event::SignInFailed { fault, message, quiet } => a.on_sign_in_failed(
            fault,
            message,
            quiet,
            now,
            random,
        ),
        Event::Cancelled => {
            a.on_cancelled(now);
            Effects::none()
        },
        Event::Discovered { kerberos, device_grant, defaults, help_url, idp_name, source } => {
            a.on_discovered(kerberos, device_grant, defaults, help_url, idp_name, source, now)
        },
        Event::BrokerDiscovered { url } => {
            a.on_broker_discovered(url, now);
            Effects::none()
        },
        Event::GrantCreated { grant } => a.on_grant_created(grant, now),
        Event::GrantFailed { fault, message } => a.on_grant_failed(fault, message, now),
        Event::CloudSignedOut { asked } => a.on_cloud_signed_out(asked),
        Event::GrantGivenUp { revoked, saved } => a.on_grant_given_up(revoked, saved),
        Event::ElevationGranted { action } => Effects {
            elevating: Some(action),
            ..Effects::none()
        },
        Event::Elevated { action, outcome, recheck_enrollment } => a.on_elevated(
            action,
            outcome,
            recheck_enrollment,
            now,
        ),
    };
    fx.save = fx.save || save;
    fx
}

/// One worker's result. The effects are for the caller to carry out once the
/// state is settled.
pub fn apply(a: &mut Agent, ev: Event, flags: Flags, now: i64) -> (fx: Effects)
    requires
        schedule::clock(now),
        timely(ev),
        old(a)@.sound(),
    ensures
        exists|random: Option<u64>|
            (#[trigger] applied(old(a)@, ev, flags, now, random)) == (final(a)@, fx@),
        final(a)@.sound(),
{
    let random = random_number();
    apply_with(a, ev, flags, now, random)
}

/// Whether the agent can compute with the times in an event, which a broker or a
/// ticket cache supplied.
pub fn is_timely(ev: &Event) -> (r: bool)
    ensures
        r == timely(*ev),
{
    match ev {
        Event::SignedIn { injected, .. } => is_moment(injected.start) && is_moment(injected.end)
            && is_moment(injected.renew_till),
        _ => true,
    }
}

// ------------------------------------------------------------------------ laws

/// A failure does not invalidate the ticket already in the cache: whatever failed
/// and whoever asked, a live session stays connected, nobody is interrupted, and
/// the re-injection schedule stands -- moved up after a network failure, but never
/// past the midpoint.
pub proof fn law_a_failure_never_cancels_a_live_schedule(
    m: AgentModel,
    fault: Option<Fault>,
    message: SentenceModel,
    quiet: bool,
    now: i64,
    random: Option<u64>,
)
    requires
        schedule::clock(now),
        m.sound(),
        m.live(now),
    ensures
        ({
            let (next, fx) = sign_in_failed(m, fault, message, quiet, now, random);
            &&& next.phase is Connected
            &&& next.live(now)
            &&& fx.notice is None
            &&& fault != Some(Fault::Network) ==> next.refresh_at == m.refresh_at
            &&& fault == Some(Fault::Network) ==> (next.refresh_at matches Some(t) && now < t
                <= schedule::midpoint_of(now as int, m.end as int, random))
        }),
{
    reveal(sign_in_failed);
    schedule::law_a_renewal_lands_before_expiry(now as int, m.end as int, random);
}

/// A failure that nobody asked about is never announced; one that somebody asked
/// about, with no ticket to show for it, always is.
pub proof fn law_a_quiet_failure_is_never_announced(
    m: AgentModel,
    fault: Option<Fault>,
    message: SentenceModel,
    quiet: bool,
    now: i64,
    random: Option<u64>,
)
    ensures
        sign_in_failed(m, fault, message, quiet, now, random).1.notice is Some <==> !quiet
            && !m.live(now),
{
    reveal(sign_in_failed);
}

/// Transport that has been failing is measured from its first failure: further
/// network failures leave that moment where it is, and anything else forgets it.
pub proof fn law_flakiness_is_measured_from_the_first_failure(
    m: AgentModel,
    fault: Option<Fault>,
    message: SentenceModel,
    now: i64,
)
    ensures
        ({
            let next = m.recording(fault, message, now);
            &&& fault == Some(Fault::Network) && m.first_failure_at is Some
                ==> next.first_failure_at == m.first_failure_at
            &&& fault == Some(Fault::Network) && m.first_failure_at is None
                ==> next.first_failure_at == Some(now)
            &&& fault == Some(Fault::Network) ==> next.probe_at is Some
            &&& fault != Some(Fault::Network) ==> next.first_failure_at is None && next.probe_at
                is None
        }),
{
}

/// Cancelling a sign-in throws away no session that is still working.
pub proof fn law_cancelling_keeps_a_live_session(m: AgentModel, now: i64)
    ensures
        m.live(now) ==> cancelled(m, now).live(now),
        m.live(now) ==> cancelled(m, now).phase is Connected,
        cancelled(m, now).end == m.end,
        cancelled(m, now).principal == m.principal,
        cancelled(m, now).refresh_at == m.refresh_at,
{
    reveal(cancelled);
}

/// A landed exchange ends every failure: the session is the new ticket's, with the
/// next renewal ahead of it, and from here on a lapse reads as a fault.
pub proof fn law_a_landed_exchange_is_a_clean_session(
    m: AgentModel,
    injected: InjectedModel,
    kerberos: KerberosModel,
    device_grant: DeviceGrantModel,
    help_url: Option<Seq<char>>,
    idp_name: Seq<char>,
    via_grant: bool,
    now: i64,
    random: Option<u64>,
)
    requires
        schedule::clock(now),
        schedule::moment(injected.end),
    ensures
        ({
            let (next, fx) = signed_in(
                m,
                injected,
                kerberos,
                device_grant,
                help_url,
                idp_name,
                via_grant,
                now,
                random,
            );
            &&& next.phase is Connected
            &&& next.principal == injected.principal
            &&& next.end == injected.end
            &&& next.fault is None
            &&& next.first_failure_at is None
            &&& !next.silent_failed
            &&& next.fallback is Clear
            &&& next.refresh_at matches Some(t) && t > now && (injected.end - now
                > schedule::EXPIRY_GRACE ==> t < injected.end)
            &&& next.kerberos.realm.len() > 0 ==> next.expected()
            &&& fx.notice is None <==> m.phase is Connected && m.fault is None && !m.silent_failed
        }),
{
    reveal(signed_in);
    schedule::law_a_renewal_lands_before_expiry(now as int, injected.end as int, random);
}

/// Only a landed exchange ends an episode of NTLM fallback. A broker outage cannot
/// turn it into a raise loop, and neither can the repair itself.
pub proof fn law_only_a_landed_exchange_ends_an_episode(
    m: AgentModel,
    ev: Event,
    flags: Flags,
    now: i64,
    random: Option<u64>,
)
    requires
        m.fallback is Confirmed,
    ensures
        applied(m, ev, flags, now, random).0.fallback is Clear <==> ev is SignedIn,
{
    reveal(AgentModel::received);
    reveal(signed_in);
    reveal(sign_in_failed);
    reveal(cancelled);
    reveal(discovered);
    reveal(broker_discovered);
    reveal(grant_created);
    reveal(grant_given_up);
    reveal(elevated);
    reveal(grant_failed);
    reveal(cloud_signed_out);
}

/// A discovery in the middle of a sign-in, a broker from DNS, a cloud logout, a
/// revocation and an answered prompt leave the busy slot to the worker that holds
/// it; every other event is that worker reporting in.
pub proof fn law_only_a_report_frees_the_slot(
    m: AgentModel,
    ev: Event,
    flags: Flags,
    now: i64,
    random: Option<u64>,
)
    ensures
        applied(m, ev, flags, now, random).0.busy == (m.busy && !ends_slot(ev)),
{
    reveal(AgentModel::received);
    reveal(signed_in);
    reveal(sign_in_failed);
    reveal(cancelled);
    reveal(discovered);
    reveal(broker_discovered);
    reveal(grant_created);
    reveal(grant_given_up);
    reveal(elevated);
    reveal(grant_failed);
    reveal(cloud_signed_out);
}

/// A dead grant is forgotten whatever the event beside it says, unless that event
/// is a new grant.
pub proof fn law_a_dead_grant_is_forgotten(
    m: AgentModel,
    ev: Event,
    flags: Flags,
    now: i64,
    random: Option<u64>,
)
    requires
        flags.grant_stale,
    ensures
        applied(m, ev, flags, now, random).0.settings.file.grant is Some <==> ev is GrantCreated,
        m.settings.file.grant is Some ==> applied(m, ev, flags, now, random).1.save,
{
    reveal(AgentModel::received);
    reveal(signed_in);
    reveal(sign_in_failed);
    reveal(cancelled);
    reveal(discovered);
    reveal(broker_discovered);
    reveal(grant_created);
    reveal(grant_given_up);
    reveal(elevated);
    reveal(grant_failed);
    reveal(cloud_signed_out);
}

/// A fresh grant is followed by an exchange, unless the session in the cache is
/// already the grant's own; and what it starts does not count as news after it.
pub proof fn law_a_fresh_grant_gets_its_ticket(m: AgentModel, grant: GrantModel, now: i64)
    ensures
        ({
            let (next, fx) = grant_created(m, grant, now);
            &&& next.settings.file.grant == Some(grant)
            &&& fx.save
            &&& next.just_authorized
            &&& fx.start == Some(Trigger::Granted) <==> !(m.phase is Connected
                && schedule::grants_own(
                Some(grant),
                m.settings.grant_for() is Some,
                m.principal,
            ))
            &&& fx.start is Some ==> next.granted_exchange_pending
        }),
{
    reveal(grant_created);
}

/// A broker that DNS volunteers never replaces one that anybody named.
pub proof fn law_dns_replaces_nobody(m: AgentModel, url: Seq<char>, now: i64)
    ensures
        m.settings.broker_url() is Some ==> broker_discovered(m, url, now) == m,
        m.settings.broker_url() is None ==> broker_discovered(m, url, now).settings.broker_url()
            == Some(url) && broker_discovered(m, url, now).startup_retry_at == Some(now),
{
    reveal(broker_discovered);
}

/// A discovery overrides no choice: what a deployment prefers decides only where neither
/// policy nor this machine has.
pub proof fn law_a_discovery_overrides_no_choice(
    m: AgentModel,
    kerberos: KerberosModel,
    device_grant: DeviceGrantModel,
    defaults: Defaults,
    help_url: Option<Seq<char>>,
    idp_name: Seq<char>,
    source: Seq<char>,
    now: i64,
)
    ensures
        ({
            let was = m.settings;
            let s = discovered(
                m,
                kerberos,
                device_grant,
                defaults,
                help_url,
                idp_name,
                source,
                now,
            ).0.settings;
            &&& s.defaults == defaults
            &&& s.policy == was.policy
            &&& s.file == (crate::config::FileModel { cache: s.file.cache, ..was.file })
            &&& s.broker_url() == was.broker_url()
            &&& was.policy.windows_sign_in is Some || was.file.windows_sign_in is Some
                ==> s.windows_sign_in() == was.windows_sign_in()
            &&& was.policy.autostart is Some || was.file.autostart is Some ==> s.autostart_want()
                == was.autostart_want()
        }),
{
    reveal(discovered);
}

/// A landed exchange is taken over whole: the ticket's own principal and times, what this
/// deployment allows and calls itself, and the realm, where one was named. A grant that
/// obtained it is known by that principal from now on. The login's retries are over, and
/// the next look for a vanished ticket is half a minute away.
pub proof fn law_a_landed_exchange_is_taken_over(
    m: AgentModel,
    ev: Event,
    flags: Flags,
    now: i64,
    random: Option<u64>,
)
    requires
        schedule::clock(now),
    ensures
        ev matches Event::SignedIn {
            injected,
            kerberos,
            device_grant,
            help_url,
            idp_name,
            via_grant,
        } ==> {
            let n = applied(m, ev, flags, now, random).0;
            &&& n.phase is Connected
            &&& n.principal == injected.principal@
            &&& n.start == injected.start
            &&& n.end == injected.end
            &&& n.renew_till == injected.renew_till
            &&& n.device_grant == device_grant@
            &&& n.help_url == text::opt_text(help_url)
            &&& n.idp_name == idp_name@
            &&& n.fault is None
            &&& n.message.phrase is Silence
            &&& n.first_failure_at is None
            &&& !n.silent_failed
            &&& !n.escalated
            &&& n.refresh_backoff == 0
            &&& n.startup_retry_at is None
            &&& n.startup_retries == 0
            &&& n.startup_backoff == 0
            &&& n.fallback is Clear
            &&& n.fallback_check_at == now + 30
            &&& !n.granted_exchange_pending
            &&& n.just_authorized <==> m.just_authorized && m.granted_exchange_pending
            &&& n.refresh_at == Some(
                schedule::midpoint_of(now as int, injected.end as int, random) as i64,
            )
            &&& kerberos@.realm.len() > 0 ==> n.kerberos == kerberos@ && n.settings.file.cache
                == kerberos@
            &&& kerberos@.realm.len() == 0 ==> n.kerberos == m.kerberos && n.settings.file.cache
                == m.settings.file.cache
            &&& n.settings.file.expected_working_as == n.scope()
            &&& via_grant && !flags.grant_stale && m.settings.file.grant is Some
                ==> n.settings.file.grant == Some(
                GrantModel {
                    principal: Some(injected.principal@),
                    ..m.settings.file.grant->0
                },
            )
            &&& !via_grant && !flags.grant_stale ==> n.settings.file.grant == m.settings.file.grant
            &&& n.enroll_state == m.enroll_state
            &&& n.source == m.source
            &&& n.grant_notified_at == m.grant_notified_at
            &&& n.probe_at == m.probe_at
        },
{
    reveal(AgentModel::received);
    reveal(signed_in);
}

/// What a landed exchange has carried out: the file written where anything in it changed,
/// the enrollment asked about where a realm was named, and -- where the session starts or a
/// fault clears -- an information that names the realm, whoever the ticket is for, and how
/// long it lasts.
pub proof fn law_a_landed_exchange_is_announced(
    m: AgentModel,
    ev: Event,
    flags: Flags,
    now: i64,
    random: Option<u64>,
)
    requires
        schedule::clock(now),
    ensures
        ev matches Event::SignedIn { injected, kerberos, .. } ==> {
            let (n, fx) = applied(m, ev, flags, now, random);
            &&& n.settings.file != m.settings.file ==> fx.save
            &&& fx.save && !flags.grant_stale && !flags.new_browser_session ==> n.settings.file
                != m.settings.file
            &&& fx.recheck_enrollment <==> kerberos@.realm.len() > 0
            &&& !fx.settle_autostart && !fx.report_unsaved
            &&& fx.finished is None && fx.elevating is None && fx.start is None
            &&& fx.notice is Some <==> m.phase != Phase::Connected || m.fault is Some
                || m.silent_failed
            &&& fx.notice matches Some(notice) ==> {
                &&& notice.severity is Info
                &&& notice.title == sentence::about(
                    Phrase::NotifyReadyTitle,
                    Slot::Realm,
                    FillerModel::Text(n.kerberos.realm),
                )
                &&& notice.body.phrase is NotifyReadyBody
                &&& notice.body.args.len() == 2
                &&& notice.body.args[0] == (
                    Slot::Identity,
                    FillerModel::Said(
                        if m.settings.policy.grant_for is Some || m.settings.file.grant_for
                            is Some {
                            Phrase::IdWorkingAs
                        } else {
                            Phrase::IdSignedInAs
                        },
                        injected.principal@,
                    ),
                )
                &&& notice.body.args[1] == (
                    Slot::Duration,
                    FillerModel::Duration((injected.end - now) as i64),
                )
            }
        },
{
    reveal(AgentModel::received);
    reveal(signed_in);
}

/// A failed sign-in is recorded as what it was. Under a live ticket it is a silent renewal
/// that failed: the first of the network's is tried again in a minute, later ones at twice
/// the interval up to ten, and never after the midpoint.
pub proof fn law_a_failed_renewal_is_tried_again(
    m: AgentModel,
    ev: Event,
    flags: Flags,
    now: i64,
    random: Option<u64>,
)
    requires
        schedule::clock(now),
        m.sound(),
        m.live(now),
    ensures
        ev matches Event::SignInFailed { fault, message, quiet } ==> {
            let (n, fx) = applied(m, ev, flags, now, random);
            let mid = schedule::midpoint_of(now as int, m.end as int, random);
            let soon = if m.first_failure_at is None || m.refresh_backoff < 30 {
                60int
            } else if m.refresh_backoff > 300 {
                600int
            } else {
                m.refresh_backoff * 2
            };
            &&& n.message == message@ && n.fault == fault
            &&& n.phase is Connected && n.silent_failed
            &&& n.principal == m.principal && n.start == m.start && n.end == m.end
            &&& n.renew_till == m.renew_till
            &&& fault == Some(Fault::Network) ==> n.refresh_backoff == soon && n.refresh_at == Some(
                (if now + soon < mid {
                    now + soon
                } else {
                    mid
                }) as i64,
            )
            &&& fault != Some(Fault::Network) ==> n.refresh_backoff == m.refresh_backoff
                && n.refresh_at == m.refresh_at
            &&& n.startup_retry_at == m.startup_retry_at
            &&& n.startup_retries == m.startup_retries
            &&& n.escalated == m.escalated
            &&& fx.notice is None && fx.finished is None && fx.start is None
            &&& !fx.recheck_enrollment
        },
{
    reveal(AgentModel::received);
    reveal(sign_in_failed);
}

/// Without a live ticket, a login that failed quietly leaves the machine signed out and is
/// tried again: after the network's failure in five seconds and then at twice the interval
/// up to ten minutes, after any other in twenty seconds, as often as tries are left. One
/// that somebody asked for is an error, and says so.
pub proof fn law_a_failed_sign_in_is_answered(
    m: AgentModel,
    ev: Event,
    flags: Flags,
    now: i64,
    random: Option<u64>,
)
    requires
        schedule::clock(now),
        m.sound(),
        !m.live(now),
    ensures
        ev matches Event::SignInFailed { fault, message, quiet } ==> {
            let (n, fx) = applied(m, ev, flags, now, random);
            let wait = if m.first_failure_at is None || m.startup_backoff < 3 {
                5int
            } else if m.startup_backoff > 300 {
                600int
            } else {
                m.startup_backoff * 2
            };
            &&& n.message == message@ && n.fault == fault
            &&& n.silent_failed == m.silent_failed
            &&& n.refresh_at == m.refresh_at && n.refresh_backoff == m.refresh_backoff
            &&& quiet ==> n.phase is SignedOut && fx.notice is None
            &&& quiet && fault == Some(Fault::Network) ==> n.startup_backoff == wait
                && n.startup_retry_at == Some((now + wait) as i64) && n.startup_retries
                == m.startup_retries
            &&& quiet && fault != Some(Fault::Network) && m.startup_retries > 0
                ==> n.startup_retry_at == Some((now + 20) as i64) && n.startup_retries
                == m.startup_retries - 1 && n.startup_backoff == m.startup_backoff
            &&& quiet && fault != Some(Fault::Network) && m.startup_retries == 0
                ==> n.startup_retry_at == m.startup_retry_at && n.startup_retries == 0
            &&& !quiet ==> n.phase is Error && n.startup_retry_at == m.startup_retry_at
                && n.startup_retries == m.startup_retries
            &&& !quiet ==> fx.notice == Some(
                NoticeModel {
                    title: sentence::plain(Phrase::CondStopped),
                    body: message@,
                    severity: Severity::Error,
                },
            )
            &&& fx.finished is None && fx.start is None && fx.elevating is None
        },
{
    reveal(AgentModel::received);
    reveal(sign_in_failed);
}

/// A cancelled sign-in is over, and changes nothing but that.
pub proof fn law_a_cancelled_sign_in_is_over(
    m: AgentModel,
    flags: Flags,
    now: i64,
    random: Option<u64>,
)
    ensures
        ({
            let (n, fx) = applied(m, Event::Cancelled, flags, now, random);
            &&& m.phase is SigningIn && m.end > now && m.principal.len() > 0 ==> n.phase
                is Connected
            &&& m.phase is SigningIn && !(m.end > now && m.principal.len() > 0) ==> n.phase
                is SignedOut
            &&& !(m.phase is SigningIn) ==> n.phase == m.phase
            &&& n.message == m.message && n.fault == m.fault
            &&& n.end == m.end && n.principal == m.principal && n.refresh_at == m.refresh_at
            &&& fx.notice is None && fx.finished is None && fx.start is None
        }),
{
    reveal(AgentModel::received);
    reveal(cancelled);
}

/// One event that a slot's worker reports with leaves only the cloud logout and the revoke
/// running; a logout and a revoke that report leave everything but themselves; every other
/// event leaves all of it.
#[verifier::rlimit(60)]
#[verifier::spinoff_prover]
pub proof fn law_what_still_runs_after_an_event(
    m: AgentModel,
    ev: Event,
    flags: Flags,
    now: i64,
    random: Option<u64>,
    a: Action,
)
    ensures
        ({
            let n = applied(m, ev, flags, now, random).0;
            let inside = ev is SignedIn || ev is SignInFailed || ev is Cancelled || ev is Elevated
                || ev is GrantCreated || ev is GrantFailed;
            &&& inside ==> !n.busy
            &&& !inside ==> n.busy == m.busy
            &&& inside ==> (n.in_flight.contains(a) <==> m.in_flight.contains(a) && (a
                == Action::SignOutIdp || a == Action::GiveUpGrant))
            &&& ev is Discovered || ev is BrokerDiscovered || ev is ElevationGranted
                ==> n.in_flight == m.in_flight
            &&& ev is CloudSignedOut ==> (n.in_flight.contains(a) <==> m.in_flight.contains(a) && a
                != Action::SignOutIdp)
            &&& ev is GrantGivenUp ==> (n.in_flight.contains(a) <==> m.in_flight.contains(a) && a
                != Action::GiveUpGrant)
        }),
{
    reveal(AgentModel::received);
    reveal(signed_in);
    reveal(sign_in_failed);
    reveal(cancelled);
    reveal(discovered);
    reveal(broker_discovered);
    reveal(grant_created);
    reveal(grant_given_up);
    reveal(elevated);
    reveal(grant_failed);
    reveal(cloud_signed_out);
    let slotless = |b: Action| b.slotless();
    let n = applied(m, ev, flags, now, random).0;
    if ends_slot(ev) {
        assert(n.in_flight == m.in_flight.filter(slotless));
        lists::filter_holds(m.in_flight, slotless, a);
    } else if ev is CloudSignedOut {
        lists::filter_holds(m.in_flight, super::other_than(Action::SignOutIdp), a);
    } else if ev is GrantGivenUp {
        lists::filter_holds(m.in_flight, super::other_than(Action::GiveUpGrant), a);
    }
}

/// Whatever an event changes, it changes no choice: the settings that policy or a person
/// made stay. A browser session that began is remembered, and whatever that changed is
/// written.
#[verifier::rlimit(60)]
#[verifier::spinoff_prover]
pub proof fn law_no_event_changes_a_choice(
    m: AgentModel,
    ev: Event,
    flags: Flags,
    now: i64,
    random: Option<u64>,
)
    ensures
        ({
            let (n, fx) = applied(m, ev, flags, now, random);
            &&& flags.new_browser_session && !(ev is CloudSignedOut)
                ==> n.settings.file.browser_session
            &&& !flags.new_browser_session && !(ev is CloudSignedOut)
                ==> n.settings.file.browser_session == m.settings.file.browser_session
            &&& flags.new_browser_session && !m.settings.file.browser_session ==> fx.save
            &&& n.settings.policy == m.settings.policy
            &&& n.settings.windows == m.settings.windows
            &&& n.settings.file.broker_url == m.settings.file.broker_url
            &&& n.settings.file.grant_for == m.settings.file.grant_for
            &&& n.settings.file.autostart == m.settings.file.autostart
            &&& n.settings.file.windows_sign_in == m.settings.file.windows_sign_in
            &&& n.settings.file.ntlm_fallback_recovery == m.settings.file.ntlm_fallback_recovery
        }),
{
    reveal(AgentModel::received);
    reveal(signed_in);
    reveal(sign_in_failed);
    reveal(cancelled);
    reveal(discovered);
    reveal(broker_discovered);
    reveal(grant_created);
    reveal(grant_given_up);
    reveal(elevated);
    reveal(grant_failed);
    reveal(cloud_signed_out);
}

/// A `/config` that was read ends a network failure and no other, fills in the realm and
/// the grant policy where there were none, and says what the deployment prefers, where its
/// help is, what its sign-in and its source are called.
pub proof fn law_a_discovery_is_taken_over(
    m: AgentModel,
    ev: Event,
    flags: Flags,
    now: i64,
    random: Option<u64>,
)
    ensures
        ev matches Event::Discovered {
            kerberos,
            device_grant,
            defaults,
            help_url,
            idp_name,
            source,
        } ==> {
            let (n, fx) = applied(m, ev, flags, now, random);
            let takes = kerberos@.realm.len() > 0 && m.kerberos.realm.len() == 0;
            &&& n.help_url == text::opt_text(help_url)
            &&& n.idp_name == idp_name@
            &&& n.source == source@
            &&& n.settings.defaults == defaults
            &&& m.device_grant.days == 0 ==> n.device_grant == device_grant@
            &&& m.device_grant.days != 0 ==> n.device_grant == m.device_grant
            &&& takes ==> n.kerberos == kerberos@ && n.settings.file.cache == kerberos@
            &&& !takes ==> n.kerberos == m.kerberos && n.settings.file.cache
                == m.settings.file.cache
            &&& m.fault == Some(Fault::Network) ==> n.fault is None && n.message.phrase is Silence
                && n.first_failure_at is None && n.probe_at is None
            &&& m.fault != Some(Fault::Network) ==> n.fault == m.fault && n.message == m.message
                && n.first_failure_at == m.first_failure_at && n.probe_at == m.probe_at
            &&& n.phase == m.phase && n.principal == m.principal && n.end == m.end
            &&& n.refresh_at == m.refresh_at && n.startup_retry_at == m.startup_retry_at
            &&& fx.settle_autostart
            &&& fx.recheck_enrollment <==> takes
            &&& n.settings.file != m.settings.file ==> fx.save
            &&& fx.notice is None && fx.finished is None && fx.start is None && fx.elevating is None
        },
{
    reveal(AgentModel::received);
    reveal(discovered);
}

/// A grant that was created is held, said to be good for its days, and written -- with an
/// answer that says so when it could not be. The note that stays names the browser's session
/// where there is one to sign out of. A ticket follows where this machine's is not the
/// grant's own.
pub proof fn law_a_grant_is_taken_over(
    m: AgentModel,
    ev: Event,
    flags: Flags,
    now: i64,
    random: Option<u64>,
)
    ensures
        ev matches Event::GrantCreated { grant } ==> {
            let (n, fx) = applied(m, ev, flags, now, random);
            let pinned = m.settings.policy.grant_for is Some || m.settings.file.grant_for is Some;
            let own = match grant@.principal {
                Some(p) => p == m.principal,
                None => !pinned,
            };
            let session = m.settings.file.browser_session || flags.new_browser_session;
            &&& n.settings.file.grant == Some(grant@)
            &&& n.just_authorized
            &&& n.fault is None
            &&& n.message == (if session {
                sentence::about(Phrase::GrantedNote, Slot::Idp, FillerModel::Text(m.idp_name))
            } else {
                sentence::plain(Phrase::GrantedNoteWam)
            })
            &&& n.granted_exchange_pending <==> !(m.phase is Connected && own)
            &&& fx.start == (if m.phase is Connected && own {
                None::<Trigger>
            } else {
                Some(Trigger::Granted)
            })
            &&& fx.save && fx.report_unsaved
            &&& fx.finished == Some(
                (
                    Action::CreateGrant,
                    OutcomeModel::Done {
                        message: sentence::about(
                            Phrase::GrantDone,
                            Slot::Days,
                            FillerModel::Days(
                                schedule::days_to(
                                    grant@.sign_in_required_by as int,
                                    now as int,
                                ) as i64,
                            ),
                        ),
                        detail: Seq::empty(),
                    },
                ),
            )
            &&& n.phase == m.phase && n.principal == m.principal && n.end == m.end
            &&& n.refresh_at == m.refresh_at
        },
{
    reveal(AgentModel::received);
    reveal(grant_created);
}

/// A grant that was refused is recorded as the failure it was, and answers who asked.
pub proof fn law_a_refused_grant_is_answered(
    m: AgentModel,
    ev: Event,
    flags: Flags,
    now: i64,
    random: Option<u64>,
)
    ensures
        ev matches Event::GrantFailed { fault, message } ==> {
            let (n, fx) = applied(m, ev, flags, now, random);
            &&& n.message == message@ && n.fault == fault
            &&& n.phase == m.phase && n.principal == m.principal && n.end == m.end
            &&& n.just_authorized == m.just_authorized
            &&& fx.finished == Some(
                (Action::CreateGrant, OutcomeModel::Failed { message: message@ }),
            )
            &&& fx.start is None && fx.notice is None
        },
{
    reveal(AgentModel::received);
    reveal(grant_failed);
}

/// A grant given up says that the key is gone, whether the broker at its host was told, and
/// that it could not be written down where it could not.
pub proof fn law_a_grant_given_up_is_answered(
    m: AgentModel,
    revoked: bool,
    saved: bool,
    flags: Flags,
    now: i64,
    random: Option<u64>,
)
    ensures
        ({
            let (n, fx) = applied(m, Event::GrantGivenUp { revoked, saved }, flags, now, random);
            let host = FillerModel::Text(
                match m.settings.broker_url() {
                    Some(url) => super::host_part(url),
                    None => Seq::empty(),
                },
            );
            &&& fx.finished matches Some((Action::GiveUpGrant, OutcomeModel::Done { message, detail }))
                && message == sentence::plain(Phrase::DlgGrantOffResult) && detail.len() == (
            if saved {
                1int
            } else {
                2int
            }) && (revoked ==> detail[0] == sentence::about(
                Phrase::DlgGrantOffResultSub,
                Slot::Broker,
                host,
            )) && (!revoked ==> detail[0] == sentence::about(
                Phrase::DlgGrantOffResultStale,
                Slot::Broker,
                host,
            )) && (!saved ==> detail[1] == sentence::plain(Phrase::DlgGrantUnsaved))
            &&& n.message == m.message && n.fault == m.fault && n.phase == m.phase
            &&& fx.start is None && fx.notice is None
        }),
{
    reveal(AgentModel::received);
    reveal(grant_given_up);
}

/// A browser session is forgotten when the authority was asked to end it, and only then.
pub proof fn law_a_cloud_logout_forgets_the_session(
    m: AgentModel,
    asked: bool,
    flags: Flags,
    now: i64,
    random: Option<u64>,
)
    requires
        !flags.new_browser_session,
    ensures
        ({
            let (n, fx) = applied(m, Event::CloudSignedOut { asked }, flags, now, random);
            &&& asked ==> !n.settings.file.browser_session
            &&& !asked ==> n.settings.file.browser_session == m.settings.file.browser_session
            &&& asked && m.settings.file.browser_session ==> fx.save
            &&& !flags.grant_stale ==> (fx.save <==> asked && m.settings.file.browser_session)
            &&& n.phase == m.phase && n.message == m.message && n.fault == m.fault
            &&& fx.notice is None && fx.finished is None && fx.start is None
        }),
{
    reveal(AgentModel::received);
    reveal(cloud_signed_out);
}

/// An elevated step answers who asked with what it came to. One that worked during an
/// episode asks for a ticket at once; one that failed is recorded as a failure that is not
/// the network's; one that was declined changes nothing.
pub proof fn law_an_elevated_step_is_answered(
    m: AgentModel,
    ev: Event,
    flags: Flags,
    now: i64,
    random: Option<u64>,
)
    ensures
        ev matches Event::Elevated { action, outcome, recheck_enrollment } ==> {
            let (n, fx) = applied(m, ev, flags, now, random);
            &&& fx.finished == Some((action, outcome@))
            &&& fx.recheck_enrollment == recheck_enrollment
            &&& n.fallback == m.fallback
            &&& outcome@ is Done && m.fallback is Confirmed ==> n.refresh_at == Some(now)
            &&& !(outcome@ is Done && m.fallback is Confirmed) ==> n.refresh_at == m.refresh_at
            &&& outcome@ matches OutcomeModel::Failed { message } ==> n.message == message
                && n.fault == Some(Fault::Other)
            &&& !(outcome@ is Failed) ==> n.message == m.message && n.fault == m.fault
            &&& n.phase == m.phase
        },
        ev matches Event::ElevationGranted { action } ==> {
            let (n, fx) = applied(m, ev, flags, now, random);
            &&& fx.elevating == Some(action)
            &&& n.phase == m.phase && n.message == m.message && n.fault == m.fault
            &&& fx.finished is None
        },
        !(ev is ElevationGranted) ==> applied(m, ev, flags, now, random).1.elevating is None,
{
    reveal(AgentModel::received);
    reveal(signed_in);
    reveal(sign_in_failed);
    reveal(discovered);
    reveal(grant_created);
    reveal(grant_given_up);
    reveal(grant_failed);
    reveal(cloud_signed_out);
    reveal(elevated);
}

/// An answer that promised to write something down says that it could not; a file that was
/// written, or was never promised, changes no answer.
pub proof fn law_an_unsaved_promise_is_owned_up_to(fx: EffectsModel, ok: bool)
    ensures
        ({
            let r = fx.after_save(ok);
            &&& !r.save && !r.report_unsaved
            &&& ok || !fx.report_unsaved ==> r.finished == fx.finished
            &&& !ok && fx.report_unsaved ==> (fx.finished matches Some(
                (a, OutcomeModel::Done { message, detail }),
            ) ==> r.finished == Some(
                (
                    a,
                    OutcomeModel::Done {
                        message,
                        detail: detail + seq![sentence::plain(Phrase::DlgGrantUnsaved)],
                    },
                ),
            ))
            &&& r.notice == fx.notice && r.start == fx.start && r.elevating == fx.elevating
            &&& r.recheck_enrollment == fx.recheck_enrollment
            &&& r.settle_autostart == fx.settle_autostart
        }),
{
    if let Some((a, OutcomeModel::Done { message, detail })) = fx.finished {
        assert(detail.push(sentence::plain(Phrase::DlgGrantUnsaved)) =~= detail + seq![
            sentence::plain(Phrase::DlgGrantUnsaved),
        ]);
    }
}

/// What contracts speak of is what the fields hold, each under its own name.
pub proof fn law_every_field_is_seen_under_its_name(i: Injected, fx: Effects)
    ensures
        i@.principal == i.principal@,
        i@.start == i.start,
        i@.end == i.end,
        i@.renew_till == i.renew_till,
        fx@.save == fx.save,
        fx@.report_unsaved == fx.report_unsaved,
        fx@.recheck_enrollment == fx.recheck_enrollment,
        fx@.settle_autostart == fx.settle_autostart,
        fx@.elevating == fx.elevating,
        fx@.start == fx.start,
{
}

} // verus!
