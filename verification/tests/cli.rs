use kerbridge_client::agent::failure::InjectError;
use kerbridge_client::agent::signin::{GrantError, Tokens};
use kerbridge_client::agent::Outcome;
use kerbridge_client::broker::{BrokerError, Device, REFUSED_GRANTS_DISABLED, REFUSED_NOT_DELEGATE};
use kerbridge_client::cli::grant::{
    begin_grant, grant_created, grant_given_up, grant_list, grant_refused, grant_status, is_own,
    remaining, Key, Stamps,
};
use kerbridge_client::cli::host::{
    confirms, enroll_args, enrolled, local_report, next_enroll, repair_args, report_elevated,
    report_enroll_state, unattended_answer, unenroll_args, Left, Next,
};
use kerbridge_client::cli::resolve::{
    asks_dns, known_realm, resolve_broker, resolve_target, token_of,
};
use kerbridge_client::cli::signin::{
    announcement, granted_injection, signed_off, standing, warn_ticket_is_yours, Proved, Standing,
};
use kerbridge_client::cli::verify::{report_reading, stamp};
use kerbridge_client::config::{Grant, Policy, Settings};
use kerbridge_client::discovery::KerberosConfig;
use kerbridge_client::elevate::{outcome, Elevated};
use kerbridge_client::enroll::State;
use kerbridge_client::sentence::Phrase;

const NOW: i64 = 1_785_000_000;
const DAY: i64 = 86_400;

fn settings() -> Settings {
    Settings::new(None, Policy::default(), true)
}

fn grant() -> Grant {
    Grant {
        grant_id: "1a2b3c4d".into(),
        identity: "kb1|entra|subject".into(),
        principal: None,
        audience: "kerbridge://EXAMPLE.SITE".into(),
        sign_in_required_by: NOW + 30 * DAY,
    }
}

#[test]
fn dns_moves_no_configured_machine() {
    let mut s = settings();
    assert!(asks_dns(None, &s) && !asks_dns(Some("https://b"), &s));
    assert!(resolve_broker(None, &mut s, None).unwrap_err().starts_with("no broker configured"));
    let found = || Some("https://dns.example".to_owned());
    assert_eq!(resolve_broker(None, &mut s, found()).unwrap(), "https://dns.example");
    s.set_broker_url("https://mine.example");
    assert_eq!(resolve_broker(None, &mut s, found()).unwrap(), "https://mine.example");
    assert_eq!(resolve_broker(Some("https://asked"), &mut s, found()).unwrap(), "https://asked");
}

#[test]
fn a_target_is_blamed_on_whoever_named_it() {
    let mut s = settings();
    assert_eq!(resolve_target(None, &s).unwrap(), None);
    assert!(resolve_target(Some("a@b"), &s).unwrap_err().starts_with("--for: "));
    s.set_grant_for("a@b");
    assert!(resolve_target(None, &s)
        .unwrap_err()
        .starts_with("the account this machine gets tickets as: "));
    assert_eq!(resolve_target(Some("svc"), &s).unwrap().as_deref(), Some("svc"));
}

#[test]
fn a_cancelled_sign_in_is_an_error() {
    assert_eq!(token_of("https://b/entra", None).unwrap_err(), "sign-in cancelled");
    let t = Tokens { access_token: "AT".into(), refresh_token: None };
    assert_eq!(token_of("https://b/e", Some(t)).unwrap(), ("https://b/e".into(), "AT".into()));
}

#[test]
fn a_cached_realm_needs_no_broker() {
    let mut s = settings();
    assert_eq!(known_realm(&s), None);
    s.set_cache(&KerberosConfig { realm: "R.SITE".into(), kdcs: vec![], services: vec![] });
    assert_eq!(known_realm(&s).as_deref(), Some("R.SITE"));
    assert_eq!(local_report(""), None);
    assert!(local_report("R.SITE").unwrap().contains("R.SITE"));
}

#[test]
fn a_named_credential_beats_a_stored_one() {
    let mut s = settings();
    assert!(matches!(standing(&s, false, false), Standing::SignIn { whose: None }));
    s.set_grant(Some(grant()));
    assert!(matches!(standing(&s, false, false), Standing::Prove(g) if g.grant_id == "1a2b3c4d"));
    assert!(matches!(standing(&s, false, true), Standing::SignIn { whose: None }));
    assert!(matches!(standing(&s, true, false), Standing::SignIn { whose: None }));
    s.set_grant_principal("svc@R");
    assert!(matches!(standing(&s, true, false), Standing::SignIn { whose: Some(w) } if w == "svc@R"));
    assert!(warn_ticket_is_yours("svc@R").contains("re-injects as svc@R"));
    assert!(announcement(&grant()).contains("grant 1a2b3c4d;"));
}

#[test]
fn a_browser_papers_over_nothing() {
    let broker = |e: BrokerError| granted_injection(Err(InjectError::Broker(e)));
    assert!(matches!(broker(BrokerError::InvalidProof("stale".into())), Proved::SignIn(s)
        if s == "[kerbridge] the grant was refused (stale); signing in instead"));
    assert!(matches!(
        broker(BrokerError::NotAdmitted(REFUSED_GRANTS_DISABLED.to_owned())),
        Proved::SignIn(_)
    ));
    assert!(matches!(broker(BrokerError::NotAdmitted("disabled".into())), Proved::Stopped(_)));
    assert!(matches!(broker(BrokerError::Unreachable("x".into())), Proved::Stopped(_)));
    assert!(matches!(broker(BrokerError::RateLimited), Proved::Stopped(_)));
    assert!(matches!(granted_injection(Err(InjectError::Local("x".into()))), Proved::Stopped(s)
        if s == "injecting a TGT with this device's grant: x"));
    assert!(matches!(granted_injection(Ok("svc@R".into())), Proved::Injected(p) if p == "svc@R"));
    assert_eq!(signed_off(3, "R"), "[kerbridge] purged 3 ticket(s) for R");
}

#[test]
fn overdue_is_a_whole_day() {
    assert_eq!(remaining(NOW, NOW), "today");
    assert_eq!(remaining(NOW + DAY - 1, NOW), "today");
    assert_eq!(remaining(NOW + DAY, NOW), "in 1 day");
    assert_eq!(remaining(NOW + 30 * DAY, NOW), "in 30 days");
    assert_eq!(remaining(NOW - DAY + 1, NOW), "today");
    assert_eq!(remaining(NOW - DAY, NOW), "overdue");
    assert_eq!(remaining(i64::MIN, NOW), "overdue");
}

#[test]
fn a_deployment_without_grants_says_so() {
    let mut s = settings();
    assert!(begin_grant(false, &s, None).unwrap_err().contains("DEVICE_GRANT_DAYS is 0"));
    assert!(begin_grant(true, &s, None).unwrap().is_empty());
    s.set_grant(Some(grant()));
    assert_eq!(
        begin_grant(true, &s, Some("svc")).unwrap(),
        [
            "[kerbridge] renewing grant 1a2b3c4d -- the same key, so the id does not change",
            "[kerbridge] authorizing this device for svc, not for you",
        ]
    );
    let delegate = BrokerError::NotAdmitted(REFUSED_NOT_DELEGATE.to_owned());
    assert!(grant_refused(&GrantError::Broker(delegate)).contains("delegate group"));
    assert_eq!(grant_refused(&GrantError::Local("no TPM".into())), "authorizing this device: no TPM");
    assert_eq!(grant_created(&grant(), "T")[1], "  identity  kb1|entra|subject");
}

#[test]
fn a_disagreement_is_named() {
    let mut s = settings();
    let says = |s: &Settings, k: &Key, what: &str| {
        grant_status(s, k, "T", NOW).iter().any(|l| l.contains(what))
    };
    assert!(says(&s, &Key::Absent, "--grant authorizes this device"));
    assert!(says(&s, &Key::Present, "left over with no grant"));
    s.set_grant(Some(grant()));
    assert!(says(&s, &Key::Absent, "a key this machine no longer has"));
    assert!(says(&s, &Key::Unreadable("denied".into()), "unreadable (denied)"));
    let fine = grant_status(&s, &Key::Present, "T", NOW);
    assert_eq!(fine.len(), 7);
    assert_eq!(fine[4], "  sign-in required by  T (in 30 days)");
    s.set_grant_for("svc");
    assert!(says(&s, &Key::Present, "the pin decides only"));
}

#[test]
fn a_list_marks_this_device() {
    let device = |id: &str, seen: Option<i64>, clamped: bool| Device {
        grant_id: id.into(),
        identity: "kb1|entra|s".into(),
        label: "BUILD01".into(),
        added: NOW,
        last_seen: seen,
        sign_in_required_by: NOW + 2 * DAY,
        clamped,
    };
    let stamps = || Stamps { required_by: "R".into(), added: "A".into(), seen: "S".into() };
    assert_eq!(
        grant_list(None, &vec![], &vec![], None, NOW),
        ["[kerbridge] no device authorized for this account"]
    );
    let lines = grant_list(
        Some("svc"),
        &vec![device("aa", None, true), device("bb", Some(NOW), false)],
        &vec![stamps(), stamps()],
        Some("bb"),
        NOW,
    );
    assert_eq!(
        lines,
        [
            "[kerbridge] devices authorized for svc:",
            "  aa  BUILD01",
            "    sign-in required by  R (in 2 days), clamped by the current setting",
            "    added A, never used",
            "  bb  BUILD01  <- this device",
            "    sign-in required by  R (in 2 days)",
            "    added A, last used S",
            "\n[kerbridge] --grant-revoke <id> stops one of them",
        ]
    );
}

#[test]
fn giving_up_works_offline() {
    let mut s = settings();
    assert_eq!(grant_given_up(&mut s, true), None);
    s.set_grant(Some(grant()));
    assert!(is_own(&s, None, "1a2b3c4d") && !is_own(&s, Some("svc"), "1a2b3c4d"));
    let lines = grant_given_up(&mut s, false).unwrap();
    assert_eq!(lines.len(), 3);
    assert!(lines[1].contains("the broker was not told"));
    assert!(s.grant().is_none());
}

#[test]
fn a_stale_realm_lists_its_differences() {
    let stale = State::Stale(vec!["KDC kdc1 is missing".into()]);
    assert!(stale.needs_action() && !State::Enrolled.needs_action());
    assert_eq!(
        report_enroll_state("R", &stale),
        ["[kerbridge] R needs attention:", "  - KDC kdc1 is missing"]
    );
    assert_eq!(report_enroll_state("R", &State::Enrolled), ["[kerbridge] R is enrolled"]);
    assert_eq!(next_enroll(&State::Enrolled, false, false), Next::Nothing);
    assert_eq!(next_enroll(&State::Enrolled, true, false), Next::Elevate);
    assert_eq!(next_enroll(&stale, false, true), Next::Ask);
}

#[test]
fn a_restart_is_no_failure() {
    assert_eq!(report_elevated(Elevated::Ran(0), "enrollment", 3010), Left::Done);
    assert_eq!(report_elevated(Elevated::Ran(3010), "enrollment", 3010), Left::RebootRequired);
    assert_eq!(
        report_elevated(Elevated::Ran(5), "enrollment", 3010),
        Left::Failed("the elevated enrollment exited with code 5".into())
    );
    assert!(matches!(report_elevated(Elevated::Declined, "repair", 3010), Left::Declined(_)));
    assert!(matches!(report_elevated(Elevated::Unavailable, "repair", 3010), Left::Failed(_)));
}

#[test]
fn a_step_is_relaunched_as_it_was_asked() {
    assert_eq!(enroll_args("https://b", true, true), ["--broker", "https://b", "--reenroll", "--yes"]);
    assert_eq!(unenroll_args(None, false), ["--unenroll"]);
    assert_eq!(unenroll_args(Some("https://b"), true), ["--unenroll", "--broker", "https://b", "--yes"]);
    assert_eq!(repair_args(true), ["--repair", "--yes"]);
}

#[test]
fn silence_does_not_confirm() {
    for yes in ["y", "Y", "yes", " y \r\n"] {
        assert!(confirms(yes), "{yes:?}");
    }
    for no in ["", "\n", "n", "YES", "yep"] {
        assert!(!confirms(no), "{no:?}");
    }
    assert_eq!(unattended_answer("\n\nProceed? [y/N] "), "Proceed? [y/N] yes (--yes)");
}

#[test]
fn no_success_is_made_up() {
    assert!(matches!(outcome(Ok(Elevated::Ran(0)), Some(" Done. \n")), Outcome::Done { message, .. }
        if message.phrase == Phrase::Verbatim));
    assert!(matches!(outcome(Ok(Elevated::Ran(0)), Some("  ")), Outcome::Failed { message }
        if message.phrase == Phrase::ErrElevatedUnconfirmed));
    assert!(matches!(outcome(Ok(Elevated::Ran(1)), Some("No.")), Outcome::Failed { .. }));
    assert!(matches!(outcome(Ok(Elevated::Declined), None), Outcome::Declined));
    assert!(matches!(outcome(Ok(Elevated::Unavailable), None), Outcome::Failed { message }
        if message.phrase == Phrase::ErrElevationUnavailable));
    assert!(matches!(outcome(Err("x".into()), None), Outcome::Failed { message }
        if message.phrase == Phrase::ErrElevationFailed));
}

#[test]
fn a_share_is_read_and_stamped() {
    assert_eq!(report_reading("p", Ok("hello \n\n".into())), "--- p ---\nhello");
    assert_eq!(report_reading("p", Err("denied".into())), "[kerbridge] could not read p: denied");
    assert_eq!(stamp("a@R"), "a@R reached this share via cloud identity, no password\n");
}

#[test]
fn a_restart_is_told_and_handed_on() {
    assert_eq!(enrolled(false, true, 3010), (None, None));
    let (notice, code) = enrolled(true, false, 3010);
    assert!(notice.unwrap().ends_with("reboot required: Windows caches realm state at boot."));
    assert_eq!(code, None);
    let (notice, code) = enrolled(true, true, 3010);
    assert!(notice.is_some());
    assert_eq!(code, Some(3010));
}
