use kerbridge_client::agent::commands::{
    apply_settings, autostart_sign_in, drop_ticket, give_up_grant_now, realm_to_purge, renew_now,
    settings_view, sign_in, sign_out_idp, status_closed,
};
use kerbridge_client::agent::failure::{
    describe_discovery_error, describe_grant_error, describe_inject_error, describe_token_error,
    InjectError,
};
use kerbridge_client::agent::jobs::{begin_enroll, begin_repair, create_grant, start_worker};
use kerbridge_client::agent::signin::{
    discovered_event, ending_event, Ending, GrantError, NativeToken, Report, Run, Step, Tokens,
};
use kerbridge_client::agent::start::{adopt_with, Adopted, Held};
use kerbridge_client::agent::status::{soonest, status, Status, Surroundings};
use kerbridge_client::agent::tick::Lookup;
use kerbridge_client::agent::worker::{apply_with, Effects, Event, Flags, Injected};
use kerbridge_client::agent::{
    Agent, NtlmFallback, Outcome, Phase, Raise, Severity, Trigger,
};
use kerbridge_client::broker::{BrokerError, REFUSED_NOT_GRANTED};
use kerbridge_client::config::{FileConfig, Grant, Policy, Settings};
use kerbridge_client::describe::{Action, Condition, Fault, Supply};
use kerbridge_client::discovery::{
    BrokerConfig, Defaults, DeviceGrantConfig, KerberosConfig, OidcConfig,
};
use kerbridge_client::enroll::State;
use kerbridge_client::errors::{Cause, Chain};
use kerbridge_client::errors::Untrusted;
use kerbridge_client::sentence::{say, Phrase};

const NOW: i64 = 1_785_000_000;
const BROKER: &str = "https://kerbridge.example.site";
const CALM: Flags = Flags { grant_stale: false, new_browser_session: false };
const PLAIN: Surroundings =
    Surroundings { refresh_token: false, browser_leg: false, device_keys: true };

fn agent() -> Agent {
    let mut settings = Settings::new(None, Policy::default(), true);
    settings.set_broker_url(BROKER);
    Agent::new(settings, State::Enrolled)
}

fn kerberos() -> KerberosConfig {
    KerberosConfig { realm: "EXAMPLE.SITE".into(), kdcs: vec![], services: vec![] }
}

fn grants() -> DeviceGrantConfig {
    DeviceGrantConfig { days: 30, audience: "kerbridge://EXAMPLE.SITE".into() }
}

fn config() -> BrokerConfig {
    BrokerConfig {
        base_url: format!("{BROKER}/entra"),
        oidc: OidcConfig {
            client_id: "cid".into(),
            display_name: "Contoso".into(),
            authority: "https://login.example/t/v2.0".into(),
            scopes: vec!["openid".into()],
            authorization_endpoint: "https://login.example/a".into(),
            token_endpoint: "https://login.example/t".into(),
            end_session_endpoint: None,
        },
        kerberos: kerberos(),
        device_grant: grants(),
        defaults: Defaults::default(),
        help_url: None,
    }
}

fn grant(principal: Option<&str>) -> Grant {
    Grant {
        grant_id: "1a2b3c4d".into(),
        identity: "kb1|entra|subject".into(),
        principal: principal.map(str::to_owned),
        audience: "kerbridge://EXAMPLE.SITE".into(),
        sign_in_required_by: NOW + 30 * 86_400,
    }
}

fn injected() -> Injected {
    Injected {
        principal: "alice@EXAMPLE.SITE".into(),
        start: NOW,
        end: NOW + 36_000,
        renew_till: NOW + 604_800,
    }
}

fn landed() -> Event {
    Event::SignedIn {
        injected: injected(),
        kerberos: kerberos(),
        device_grant: grants(),
        help_url: None,
        idp_name: "Contoso".into(),
        via_grant: false,
    }
}

fn failed(fault: Option<Fault>, quiet: bool) -> Event {
    Event::SignInFailed { fault, message: say(Phrase::ErrInternal), quiet }
}

fn connected() -> Agent {
    let mut a = agent();
    apply_with(&mut a, landed(), CALM, NOW, None);
    a
}

fn seen(a: &Agent, now: i64) -> Status {
    status(a, PLAIN, now)
}

#[test]
fn a_landed_exchange_is_a_clean_session() {
    let mut a = agent();
    a.busy = true;
    a.silent_failed = true;
    a.fallback = NtlmFallback::Confirmed;
    let fx: Effects = apply_with(&mut a, landed(), CALM, NOW, None);
    assert_eq!(a.phase, Phase::Connected);
    assert_eq!(a.principal, "alice@EXAMPLE.SITE");
    assert_eq!((a.start, a.end), (NOW, NOW + 36_000));
    assert_eq!(a.refresh_at, Some(NOW + 18_000));
    assert!(!a.busy && !a.silent_failed && a.fault.is_none());
    assert_eq!(a.fallback, NtlmFallback::Clear);
    assert!(a.expected());
    assert!(fx.save, "the realm and the expectation are news");
    assert_eq!(fx.notice.unwrap().severity, Severity::Info);
    // A renewal that lands on a clean session is not worth a word.
    let fx = apply_with(&mut a, landed(), CALM, NOW + 60, None);
    assert!(fx.notice.is_none() && !fx.save);
}

#[test]
fn a_failure_never_cancels_a_live_schedule() {
    for (fault, at) in [(Fault::Refused, NOW + 18_000), (Fault::Network, NOW + 70)] {
        let mut a = connected();
        let fx = apply_with(&mut a, failed(Some(fault), false), CALM, NOW + 10, None);
        assert_eq!(a.phase, Phase::Connected);
        assert_eq!(a.refresh_at, Some(at), "{fault:?}");
        assert!(fx.notice.is_none());
        assert!(a.silent_failed);
    }
}

#[test]
fn a_quiet_failure_is_never_announced() {
    let mut a = agent();
    let fx = apply_with(&mut a, failed(Some(Fault::Refused), true), CALM, NOW, None);
    assert!(fx.notice.is_none());
    let mut a = agent();
    let fx = apply_with(&mut a, failed(Some(Fault::Refused), false), CALM, NOW, None);
    let said = fx.notice.unwrap();
    assert_eq!(said.severity, Severity::Error);
    assert_eq!(a.phase, Phase::Error);
}

#[test]
fn flakiness_is_measured_from_the_first_failure() {
    let mut a = agent();
    apply_with(&mut a, failed(Some(Fault::Network), true), CALM, NOW, None);
    assert_eq!(a.first_failure_at, Some(NOW));
    assert_eq!(a.probe_at, Some(NOW + 30));
    apply_with(&mut a, failed(Some(Fault::Network), true), CALM, NOW + 500, None);
    assert_eq!(a.first_failure_at, Some(NOW));
    apply_with(&mut a, failed(Some(Fault::Refused), true), CALM, NOW + 600, None);
    assert_eq!((a.first_failure_at, a.probe_at), (None, None));
}

#[test]
fn cancelling_keeps_a_live_session() {
    let mut a = connected();
    a.phase = Phase::SigningIn;
    apply_with(&mut a, Event::Cancelled, CALM, NOW + 10, None);
    assert_eq!(a.phase, Phase::Connected);
    let mut a = agent();
    a.phase = Phase::SigningIn;
    apply_with(&mut a, Event::Cancelled, CALM, NOW, None);
    assert_eq!(a.phase, Phase::SignedOut);
}

#[test]
fn only_a_report_frees_the_slot() {
    let mut a = agent();
    a.busy = true;
    apply_with(&mut a, discovered_event(&config()), CALM, NOW, None);
    assert!(a.busy, "a discovery comes from a sign-in that is still running");
    assert_eq!(a.source, "entra");
    assert_eq!(a.idp_name, "Contoso");
    apply_with(&mut a, Event::CloudSignedOut { asked: true }, CALM, NOW, None);
    assert!(a.busy);
    apply_with(&mut a, Event::Cancelled, CALM, NOW, None);
    assert!(!a.busy);
}

#[test]
fn a_dead_grant_is_forgotten() {
    let mut a = agent();
    a.settings.set_grant(Some(grant(None)));
    let dead = Flags { grant_stale: true, new_browser_session: false };
    let fx = apply_with(&mut a, failed(Some(Fault::Refused), true), dead, NOW, None);
    assert!(a.settings.grant().is_none());
    assert!(fx.save);
}

#[test]
fn a_fresh_grant_gets_its_ticket() {
    let mut a = agent();
    let fx = apply_with(&mut a, Event::GrantCreated { grant: grant(None) }, CALM, NOW, None);
    assert_eq!(a.settings.grant().unwrap().grant_id, "1a2b3c4d");
    assert!(fx.save && a.just_authorized && a.granted_exchange_pending);
    assert_eq!(fx.start, Some(Trigger::Granted));
    // What could not be written down is said beside the success.
    let fx = fx.saved(false);
    let (action, outcome) = fx.finished.unwrap();
    assert_eq!(action, Action::CreateGrant);
    assert!(matches!(outcome, Outcome::Done { detail, .. }
        if detail.iter().any(|s| s.phrase == Phrase::DlgGrantUnsaved)));

    // A session that is the grant's own needs no exchange.
    let mut a = connected();
    let own = grant(Some("alice@EXAMPLE.SITE"));
    assert_eq!(apply_with(&mut a, Event::GrantCreated { grant: own }, CALM, NOW, None).start, None);
}

#[test]
fn dns_replaces_nobody() {
    let mut a = agent();
    let found = || Event::BrokerDiscovered { url: "https://dns.example".into() };
    apply_with(&mut a, found(), CALM, NOW, None);
    assert_eq!(a.settings.broker_url(), Some(BROKER));
    let mut a = Agent::new(Settings::new(None, Policy::default(), true), State::NotEnrolled);
    apply_with(&mut a, found(), CALM, NOW, None);
    assert_eq!(a.settings.broker_url(), Some("https://dns.example"));
    assert_eq!(a.startup_retry_at, Some(NOW));
}

#[test]
fn only_a_landed_exchange_ends_an_episode() {
    let mut a = connected();
    a.fallback = NtlmFallback::Confirmed;
    let done = Outcome::Done { message: say(Phrase::DlgRepairResult), detail: vec![] };
    let repaired = Event::Elevated {
        action: Action::RestartWorkstation,
        outcome: done,
        recheck_enrollment: false,
    };
    apply_with(&mut a, repaired, CALM, NOW, None);
    assert_eq!(a.fallback, NtlmFallback::Confirmed);
    apply_with(&mut a, landed(), CALM, NOW, None);
    assert_eq!(a.fallback, NtlmFallback::Clear);
}

#[test]
fn an_expiry_is_announced_once() {
    let mut a = connected();
    let end = NOW + 36_000;
    let t = a.tick_with(end, None, Lookup::Present, None);
    assert_eq!(t.notice.unwrap().title.phrase, Phrase::NotifyStoppedTitle);
    assert_eq!(a.phase, Phase::Expired);
    assert!(a.tick_with(end + 30, None, Lookup::Present, None).notice.is_none());
    assert_eq!(seen(&a, end + 30).condition, Condition::Stopped);
    assert_eq!(seen(&a, end + 30).ticket.unwrap().remaining, 0, "a lapsed ticket is a ticket");
}

#[test]
fn a_renewal_is_armed_before_it_is_made() {
    let mut a = connected();
    let t = a.tick_with(NOW + 17_999, None, Lookup::Present, None);
    assert_eq!(t.start, None);
    let t = a.tick_with(NOW + 18_000, None, Lookup::Present, None);
    assert_eq!(t.start, Some(Trigger::Renewal));
    assert_eq!(a.refresh_at, Some(NOW + 27_000));
    a.busy = true;
    a.refresh_at = Some(NOW);
    assert_eq!(a.tick_with(NOW + 18_010, None, Lookup::Present, None).start, None);
}

#[test]
fn an_episode_raises_once() {
    let mut a = connected();
    let t = a.tick_with(NOW + 40, None, Lookup::Gone, None);
    assert_eq!(t.raise, Some(Raise::Repair));
    assert_eq!(a.fallback, NtlmFallback::Confirmed);
    assert_eq!(a.tick_with(NOW + 80, None, Lookup::Gone, None).raise, None);
    let mut a = connected();
    assert_eq!(a.tick_with(NOW + 40, None, Lookup::Unknown, None).raise, None);
}

#[test]
fn the_deadline_is_announced_at_most_once_a_day() {
    let mut a = connected();
    let mut due = grant(Some("alice@EXAMPLE.SITE"));
    due.sign_in_required_by = NOW + 3 * 86_400;
    a.settings.set_grant(Some(due));
    // Nobody is at the machine, so nobody is told.
    assert!(a.tick_with(NOW + 10, Some(301), Lookup::Present, None).notice.is_none());
    let t = a.tick_with(NOW + 20, Some(300), Lookup::Present, None);
    assert_eq!(t.notice.unwrap().title.phrase, Phrase::NotifyGrantDueTitle);
    assert!(a.tick_with(NOW + 3_600, Some(0), Lookup::Present, None).notice.is_none());
}

#[test]
fn only_the_machines_own_session_is_adopted() {
    let held = |principal: &str| Held {
        principal: principal.into(),
        start: NOW - 100,
        end: NOW + 36_000,
        renew_till: 0,
    };
    let mut a = agent();
    assert_eq!(adopt_with(&mut a, None, NOW, None).0, Adopted::Nothing);
    let found = Some(held("alice@EXAMPLE.SITE"));
    assert_eq!(adopt_with(&mut a, found, NOW, None).0, Adopted::Nothing, "no realm is known");
    a.kerberos = kerberos();
    assert_eq!(adopt_with(&mut a, Some(held("alice@EXAMPLE.SITE")), NOW, None).0, Adopted::Session);
    assert_eq!(a.phase, Phase::Connected);
    assert_eq!(a.refresh_at, Some(NOW + 18_000));

    let mut a = agent();
    a.kerberos = kerberos();
    a.settings.set_grant(Some(grant(Some("svc@EXAMPLE.SITE"))));
    assert_eq!(adopt_with(&mut a, Some(held("alice@EXAMPLE.SITE")), NOW, None).0, Adopted::Foreign);
    assert_eq!(a.phase, Phase::SignedOut);
}

#[test]
fn a_taken_slot_starts_nothing() {
    let mut a = agent();
    let run = sign_in(&mut a, None).unwrap();
    assert_eq!(run.broker, BROKER);
    assert!(a.busy);
    assert!(sign_in(&mut a, None).is_none());
    assert!(renew_now(&mut a, None).is_none());
    assert!(create_grant(&mut a).is_none());
    assert!(begin_enroll(&mut a, "r.txt").is_none());
    assert!(begin_repair(&mut a, "r.txt").is_none());
    assert!(start_worker(&mut a, Trigger::User, None).is_none());

    // And nothing that needs a broker starts without one.
    let mut a = Agent::new(Settings::new(None, Policy::default(), true), State::NotEnrolled);
    assert!(sign_in(&mut a, None).is_none());
    assert!(begin_enroll(&mut a, "r.txt").is_none());
    let job = begin_repair(&mut a, "r.txt").unwrap();
    assert_eq!(job.args, ["--repair", "--result", "r.txt"]);
}

#[test]
fn an_elevated_step_names_the_broker() {
    let mut a = agent();
    let job = begin_enroll(&mut a, "r.txt").unwrap();
    assert_eq!(job.args, ["--enroll", BROKER, "--result", "r.txt"]);
    assert!(job.recheck_enrollment);
    assert_eq!(a.in_flight, [Action::Enroll]);
}

#[test]
fn autostart_signs_in_quietly() {
    let mut a = agent();
    assert!(autostart_sign_in(&mut a, false, None).is_none());
    assert!(autostart_sign_in(&mut a, true, None).unwrap().silent);
}

#[test]
fn signing_off_keeps_the_grant() {
    let mut a = connected();
    a.settings.set_grant(Some(grant(None)));
    a.settings.set_browser_session(true);
    assert_eq!(realm_to_purge(&a).as_deref(), Some("EXAMPLE.SITE"));
    assert!(drop_ticket(&mut a, true, NOW));
    assert!(a.settings.grant().is_some() && a.settings.browser_session());
    assert!(!a.expected());
    assert_eq!((a.phase, a.refresh_at, a.fault), (Phase::SignedOut, None, None));
    let mut a = connected();
    drop_ticket(&mut a, false, NOW);
    assert_eq!(a.fault, Some(Fault::Other));
}

#[test]
fn giving_up_forgets_the_grant() {
    let mut a = connected();
    a.settings.set_grant(Some(grant(None)));
    let job = give_up_grant_now(&mut a).unwrap();
    assert_eq!(job.grant.grant_id, "1a2b3c4d");
    assert_eq!(job.broker.as_deref(), Some(BROKER));
    assert!(a.settings.grant().is_none() && !a.expected());
    assert_eq!(a.phase, Phase::Connected);
    assert!(a.in_flight.contains(&Action::GiveUpGrant));
    assert!(give_up_grant_now(&mut a).is_none());
}

#[test]
fn a_cloud_session_is_ended_by_name() {
    let mut a = agent();
    assert_eq!(sign_out_idp(&mut a), None, "there is none to end");
    a.settings.set_browser_session(true);
    assert_eq!(sign_out_idp(&mut a).as_deref(), Some(BROKER));
    assert!(a.in_flight.contains(&Action::SignOutIdp));
}

#[test]
fn retargeting_leaves_nothing_behind() {
    let mut a = connected();
    a.settings.set_grant(Some(grant(None)));
    a.settings.set_browser_session(true);
    let r = apply_settings(&mut a, Some("https://other.example"), true, false, false, true, "", NOW);
    assert!(r.retargeted);
    assert_eq!(r.autostart, Some(true));
    assert_eq!(r.purge, "EXAMPLE.SITE");
    assert_eq!(r.give_up.unwrap().broker.as_deref(), Some(BROKER));
    assert_eq!(a.kerberos.realm, "");
    assert!(a.settings.grant().is_none() && !a.settings.browser_session());
    assert_eq!((a.phase, a.refresh_at), (Phase::SignedOut, None));
    assert_eq!(a.startup_retry_at, Some(NOW));
}

#[test]
fn an_untouched_field_pins_nothing() {
    let mut a = connected();
    let r = apply_settings(&mut a, None, true, false, true, false, "svc-builder", NOW);
    assert!(!r.retargeted && r.give_up.is_none());
    assert_eq!((r.autostart, r.purge.as_str()), (None, ""));
    assert_eq!(a.phase, Phase::Connected);
    assert_eq!(a.settings.grant_for(), Some("svc-builder"));
    assert!(!a.settings.windows_sign_in());
}

#[test]
fn the_settings_window_shows_what_stands() {
    let mut a = connected();
    a.settings.set_grant(Some(grant(None)));
    let v = settings_view(&a, false, true);
    assert_eq!(v.broker_url, BROKER);
    assert!(v.autostart && v.autostart_locked && !v.broker_locked);
    assert_eq!((v.grant_days, v.grant_deadline), (30, NOW + 30 * 86_400));
    assert_eq!(v.realm, "EXAMPLE.SITE");
}

#[test]
fn closing_the_status_ends_the_note() {
    let mut a = agent();
    a.just_authorized = true;
    status_closed(&mut a);
    assert!(!a.just_authorized);
}

#[test]
fn a_status_reads_the_clock() {
    let a = connected();
    let st = seen(&a, NOW + 6_000);
    assert_eq!(st.condition, Condition::Working);
    assert_eq!(st.supply, Supply::WindowsSignIn);
    let clock = st.ticket.unwrap();
    assert_eq!((clock.end, clock.remaining, clock.lifetime), (NOW + 36_000, 30_000, 36_000));
    assert!(clock.renewable);
    assert_eq!(st.next_attempt_at_earliest, Some(NOW + 18_000));
    assert_eq!(st.broker_host, "kerbridge.example.site");
    assert_eq!(soonest([None, Some(3), Some(2)]), Some(2));
    assert_eq!(soonest([None, None, None]), None);
}

fn run(silent: bool, native: bool, granted: bool, pin: Option<&str>) -> Run {
    Run::sign_in(BROKER.into(), silent, native, granted, pin.map(str::to_owned), None)
}

fn tokens(refresh: Option<&str>) -> Tokens {
    Tokens { access_token: "AT".into(), refresh_token: refresh.map(str::to_owned) }
}

#[test]
fn a_browser_sign_in_ends_in_a_ticket() {
    let mut r = run(false, false, false, None);
    assert!(matches!(r.first(), Step::Discover(b) if b == BROKER));
    assert!(matches!(r.next(Report::Discovered(Ok(config()))), Step::Browser));
    let step = r.next(Report::Browsed(Ok(Some(tokens(Some("RT"))))));
    assert!(matches!(step, Step::Exchange { base, token }
        if base == format!("{BROKER}/entra") && token == "AT"));
    assert!(r.flags.new_browser_session);
    assert_eq!(r.refresh_token.as_deref(), Some("RT"));
    match r.next(Report::Exchanged(Ok(injected()))) {
        Step::Done(ending) => {
            let ev = ending_event(ending, false, false);
            assert!(matches!(ev, Event::SignedIn { via_grant: false, idp_name, .. }
                if idp_name == "Contoso"));
        }
        _ => panic!("the run is over"),
    }
    let mut r = run(false, false, false, None);
    r.next(Report::Discovered(Ok(config())));
    assert!(matches!(r.next(Report::Browsed(Ok(None))), Step::Done(Ending::Cancelled)));
}

#[test]
fn a_silent_run_opens_no_browser() {
    let mut r = run(true, true, false, None);
    assert!(matches!(r.next(Report::Discovered(Ok(config()))), Step::Native));
    match r.next(Report::Native(NativeToken::Unavailable)) {
        Step::Done(Ending::Failed(f)) => {
            assert_eq!(f.fault, None);
            assert_eq!(f.message.phrase, Phrase::ErrWamEmpty);
        }
        _ => panic!("there is nothing to be silent with"),
    }
    let mut r = run(true, false, false, None);
    r.refresh_token = Some("RT".into());
    assert!(matches!(r.next(Report::Discovered(Ok(config()))), Step::Refresh(t) if t == "RT"));
    assert!(matches!(r.next(Report::Refreshed(Ok(tokens(None)))), Step::Exchange { .. }));
    assert_eq!(r.refresh_token.as_deref(), Some("RT"), "an unrotated token stays");
}

#[test]
fn a_pinned_machine_signs_nobody_in() {
    let mut r = run(false, true, false, Some("svc-builder"));
    match r.next(Report::Discovered(Ok(config()))) {
        Step::Done(Ending::Failed(f)) => {
            assert_eq!(f.message.phrase, Phrase::ErrGrantReauthorize)
        }
        _ => panic!("it waits to be authorized"),
    }
    let mut r = run(true, true, true, Some("svc-builder"));
    let step = r.next(Report::Discovered(Ok(config())));
    assert!(matches!(step, Step::ExchangeGrant(_)));
    let refused = BrokerError::NotAdmitted(REFUSED_NOT_GRANTED.to_owned());
    match r.next(Report::GrantExchanged(Err(InjectError::Broker(refused)))) {
        Step::Done(Ending::Failed(f)) => assert_eq!(f.fault, Some(Fault::GrantRefused)),
        _ => panic!("policy answered"),
    }
    assert!(!r.flags.grant_stale);
}

#[test]
fn only_a_refused_proof_kills_a_grant() {
    let mut r = run(false, false, true, None);
    r.next(Report::Discovered(Ok(config())));
    let dead = BrokerError::InvalidProof("bad key".into());
    let step = r.next(Report::GrantExchanged(Err(InjectError::Broker(dead))));
    assert!(r.flags.grant_stale);
    assert!(matches!(step, Step::Browser), "the person is what is left");
    let mut r = run(false, false, true, None);
    r.next(Report::Discovered(Ok(config())));
    match r.next(Report::GrantExchanged(Ok(injected()))) {
        Step::Done(Ending::SignedIn { via_grant, .. }) => assert!(via_grant),
        _ => panic!("the ticket is in"),
    }
}

#[test]
fn authorizing_registers_and_injects_nothing() {
    let mut r = Run::authorize(BROKER.into(), false, Some("svc".into()));
    assert!(matches!(r.next(Report::Discovered(Ok(config()))), Step::Browser));
    let step = r.next(Report::Browsed(Ok(Some(tokens(None)))));
    assert!(matches!(step, Step::Register { audience, target, .. }
        if audience == "kerbridge://EXAMPLE.SITE" && target.as_deref() == Some("svc")));
    let step = r.next(Report::Registered(Err(GrantError::Local("no TPM".into()))));
    assert!(matches!(step, Step::Done(Ending::Failed(f)) if f.message.phrase == Phrase::ErrGrantKey));

    // An operator who turned the feature off wins over a button drawn minutes ago.
    let mut r = Run::authorize(BROKER.into(), false, None);
    let mut off = config();
    off.device_grant.days = 0;
    let step = r.next(Report::Discovered(Ok(off)));
    assert!(matches!(step, Step::Done(Ending::Failed(f))
        if f.message.phrase == Phrase::ErrGrantDisabled));
}

#[test]
fn a_failure_is_named_by_its_cause() {
    let refused = Chain::of(Cause::Refused {
        issuer: "login.example".into(),
        reason: "no consent".into(),
        said: "access_denied".into(),
    })
    .context("signing in");
    assert_eq!(refused.refused(), Some(("login.example", "no consent")));
    assert_eq!(
        describe_token_error(&refused, Phrase::ErrSignIn).message.phrase,
        Phrase::ErrIdpRefused
    );
    let late = Chain::of(Cause::TimedOut { said: "too slow".into() });
    assert!(late.timed_out());
    assert_eq!(
        describe_token_error(&late, Phrase::ErrSignIn).message.phrase,
        Phrase::ErrSignInTimeout
    );
    let plain = Chain::new("it broke".into()).context("fetching");
    assert_eq!(plain.message(), "fetching: it broke");
    let f = describe_discovery_error(&plain, BROKER);
    assert_eq!((f.fault, f.message.phrase), (Some(Fault::Network), Phrase::ErrBrokerUnreachable));
}

#[test]
fn each_broker_error_has_its_sentence() {
    let said = |e: BrokerError| describe_inject_error(&InjectError::Broker(e), "b").message.phrase;
    assert_eq!(said(BrokerError::RateLimited), Phrase::ErrRateLimited);
    assert_eq!(said(BrokerError::InvalidProof("x".into())), Phrase::ErrInvalidProof);
    assert_eq!(said(BrokerError::NotAdmitted("x".into())), Phrase::ErrNotAdmitted);
    assert_eq!(said(BrokerError::ServerUnavailable("x".into())), Phrase::ErrServerUnavailable);
    assert_eq!(said(BrokerError::BadRequest("x".into())), Phrase::ErrBadRequest);
    assert_eq!(said(BrokerError::Unreachable("x".into())), Phrase::ErrBrokerUnreachable);
    assert_eq!(said(BrokerError::Untrusted("x".into())), Phrase::ErrTlsUntrusted);
    assert_eq!(
        describe_inject_error(&InjectError::Local("x".into()), "b").message.phrase,
        Phrase::ErrInternal
    );
    let said = |e: BrokerError| describe_grant_error(&e, "b").message.phrase;
    assert_eq!(said(BrokerError::Conflict("x".into())), Phrase::ErrGrantTooMany);
}

#[test]
fn a_stored_file_is_a_starting_point() {
    let mut file = FileConfig::default();
    file.broker_url = Some("https://file.example".into());
    let s = Settings::new(Some(file), Policy::default(), false);
    assert_eq!(s.broker_url(), Some("https://file.example"));
}

#[test]
fn distrust_is_never_called_unreachable() {
    let refused = Untrusted::new("https://login.example/x", "CN=x".into());
    let e = Chain::of(Cause::Untrusted(refused)).context("fetching");
    let f = describe_discovery_error(&e, BROKER);
    assert_eq!(f.message.phrase, Phrase::ErrTlsUntrusted);
    assert_eq!(f.message.args[0].1, kerbridge_client::sentence::Filler::Text("login.example".into()));
    assert_eq!(describe_token_error(&e, Phrase::ErrSignIn).message.phrase, Phrase::ErrTlsUntrusted);
}

#[test]
fn a_refusal_is_no_network_fault() {
    let fault = |e: BrokerError| describe_inject_error(&InjectError::Broker(e), "b").fault;
    assert_ne!(fault(BrokerError::NotAdmitted("x".into())), Some(Fault::Network));
    assert_ne!(fault(BrokerError::InvalidProof("x".into())), Some(Fault::Network));
    assert_eq!(fault(BrokerError::Unreachable("x".into())), Some(Fault::Network));
}

/// What the file says, field by field.
fn written(f: &FileConfig) -> (Option<&str>, Option<&str>, Option<bool>, Option<bool>, bool) {
    (
        f.broker_url.as_deref(),
        f.grant_for.as_deref(),
        f.autostart,
        f.windows_sign_in,
        f.grant.is_some(),
    )
}

#[test]
fn the_window_as_shown_changes_nothing() {
    for (windows, enabled, machine_wide) in
        [(true, true, false), (true, false, false), (true, false, true), (false, true, true)]
    {
        for policy_on in [None, Some(true), Some(false)] {
            let policy = Policy {
                autostart: policy_on,
                windows_sign_in: policy_on,
                ..Policy::default()
            };
            let mut settings = Settings::new(None, policy, windows);
            // Followed, not chosen.
            settings.set_discovered(BROKER.to_owned());
            settings.set_defaults(Defaults { windows_sign_in: Some(false), ..Defaults::default() });
            let mut a = Agent::new(settings, State::Enrolled);
            let v = settings_view(&a, enabled, machine_wide);
            assert_eq!(v.broker_url, BROKER);
            let r = apply_settings(
                &mut a,
                None,
                v.autostart,
                enabled,
                machine_wide,
                v.windows_sign_in,
                &v.grant_for,
                NOW,
            );
            assert!(!r.retargeted && r.give_up.is_none() && r.purge.is_empty());
            assert_eq!(written(&a.settings.file), (None, None, None, None, false));
            let locked = machine_wide || policy_on.is_some();
            assert_eq!(r.autostart, (!locked).then_some(enabled));
            assert_eq!(v.autostart_locked, locked);
            assert_eq!(v.windows_sign_in_locked, policy_on.is_some());
        }
    }
}

#[test]
fn a_stored_choice_survives_a_platform_without_it() {
    let file = FileConfig { windows_sign_in: Some(true), ..FileConfig::default() };
    let mut a = Agent::new(Settings::new(Some(file), Policy::default(), false), State::Enrolled);
    let v = settings_view(&a, true, false);
    assert!(!v.windows_sign_in);
    apply_settings(&mut a, None, true, true, false, v.windows_sign_in, &v.grant_for, NOW);
    assert_eq!(a.settings.file.windows_sign_in, Some(true));
}

#[test]
fn a_moved_box_outlives_every_default() {
    let mut a = agent();
    let r = apply_settings(&mut a, None, false, true, false, true, "", NOW);
    assert_eq!(r.autostart, Some(false));
    assert_eq!(a.settings.file.autostart, Some(false));
    a.settings.set_defaults(Defaults { autostart: Some(true), ..Defaults::default() });
    assert_eq!(a.settings.autostart_to_write(false, false), None);
}

#[test]
fn policy_is_not_written_over() {
    let policy = Policy {
        autostart: Some(true),
        windows_sign_in: Some(false),
        ..Policy::default()
    };
    let mut a = Agent::new(Settings::new(None, policy, true), State::Enrolled);
    let r = apply_settings(&mut a, None, false, true, false, true, "", NOW);
    assert_eq!(r.autostart, None);
    assert_eq!((a.settings.file.autostart, a.settings.file.windows_sign_in), (None, None));
    // Moved, and nothing decides it: recorded.
    let mut a = agent();
    apply_settings(&mut a, None, true, true, false, false, "", NOW);
    assert_eq!(a.settings.file.windows_sign_in, Some(false));
}

#[test]
fn a_deadline_that_no_clock_reads_is_still_a_deadline() {
    let mut a = agent();
    let far = Grant { sign_in_required_by: i64::MAX, ..grant(None) };
    let fx = apply_with(&mut a, Event::GrantCreated { grant: far }, CALM, NOW, None);
    assert!(fx.save);
    assert_eq!(a.settings.grant().unwrap().sign_in_required_by, i64::MAX);
}

#[test]
fn a_discovery_overrides_no_choice() {
    let prefers = BrokerConfig {
        defaults: Defaults { autostart: Some(true), windows_sign_in: Some(false), ..Defaults::default() },
        ..config()
    };
    let mut a = agent();
    let fx = apply_with(&mut a, discovered_event(&prefers), CALM, NOW, None);
    assert!(fx.settle_autostart);
    assert!(!a.settings.windows_sign_in());
    assert_eq!(a.settings.autostart_to_write(false, false), Some(true));
    // Chosen here, and it stays.
    let mut a = agent();
    a.settings.set_windows_sign_in(true);
    a.settings.set_autostart_choice(false);
    apply_with(&mut a, discovered_event(&prefers), CALM, NOW, None);
    assert!(a.settings.windows_sign_in());
    assert_eq!(a.settings.autostart_to_write(false, false), None);
    // Another broker's preferences do not survive it.
    apply_settings(&mut a, Some("https://other.example"), false, false, false, true, "", NOW);
    assert_eq!(a.settings.defaults, Defaults::default());
}
