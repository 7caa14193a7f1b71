use kerbridge_client::config::{
    autostart_active, with_https, FileConfig, Grant, Policy, Settings,
};
use kerbridge_client::discovery::{Defaults, KerberosConfig};

fn settings(windows: bool) -> Settings {
    Settings {
        file: FileConfig::default(),
        policy: Policy::default(),
        discovered: None,
        defaults: Defaults::default(),
        windows,
    }
}

/// The order the whole feature rests on: what IT decided, then what the user chose,
/// then what the deployment publishes, then the built-in answer. Each layer only speaks
/// where every layer above it is silent.
#[test]
fn each_layer_only_answers_where_the_one_above_it_is_silent() {
    for on in [true, false] {
        let mut s = settings(on);
        // Nobody has said anything: the built-in answer, which is on.
        assert_eq!(s.windows_sign_in(), on);
        assert!(!s.windows_sign_in_locked());

        s.set_defaults(Defaults { windows_sign_in: Some(false), ..Defaults::default() });
        assert!(!s.windows_sign_in());

        // The user's own choice beats the deployment's default.
        s.set_windows_sign_in(true);
        assert_eq!(s.windows_sign_in(), on);

        // And policy beats both, and says so, so the checkbox stops offering.
        s.policy.windows_sign_in = Some(false);
        assert!(!s.windows_sign_in());
        assert!(s.windows_sign_in_locked());
    }
}

/// A deployment default is a seed and a policy value is not. Recording a policy answer
/// would leave a machine that has left the policy's scope still obeying it, with nothing
/// left to say why.
#[test]
fn a_deployment_default_is_recorded_and_a_policy_value_is_not() {
    let mut s = settings(true);
    s.set_defaults(Defaults { autostart: Some(true), ..Defaults::default() });
    assert!(s.set_autostart_choice(true), "the seed is news the first time");
    assert_eq!(s.file.autostart, Some(true));
    assert!(!s.set_autostart_choice(true), "and not news the second");

    // A user who then turns it off is not overridden by the same default arriving again.
    s.set_autostart_choice(false);
    assert_eq!(s.file.autostart, Some(false));

    let mut s = settings(true);
    s.policy.autostart = Some(true);
    assert!(s.autostart_managed());
    assert_eq!(s.file.autostart, None);
}

/// The NTLM machinery is Windows' alone. A deployment-wide `true` reaching a Mac would
/// arm a repair that macOS neither needs nor offers a switch for.
#[test]
fn the_ntlm_fallback_machinery_stays_on_the_platform_that_has_one() {
    for windows in [true, false] {
        let mut s = settings(windows);
        s.set_defaults(Defaults { ntlm_fallback_recovery: Some(true), ..Defaults::default() });
        assert_eq!(s.ntlm_fallback_recovery(), windows);
    }
}

/// A landed exchange is not the same thing as a changed one: without the guard, every
/// silent renewal rewrites the settings.
#[test]
fn recording_the_same_expectation_twice_is_not_news() {
    let mut s = settings(true);
    assert!(s.set_expected_working_as(Some("EXAMPLE.SITE|")));
    assert!(!s.set_expected_working_as(Some("EXAMPLE.SITE|")));
    assert_eq!(s.expected_working_as(), Some("EXAMPLE.SITE|"));

    // A delegated machine's target is half the scope, so changing it is news.
    assert!(s.set_expected_working_as(Some("EXAMPLE.SITE|svc-builder")));
    assert!(s.set_expected_working_as(None));
    assert!(!s.set_expected_working_as(None));
}

#[test]
fn a_scheme_is_added_only_where_there_is_none() {
    assert_eq!(with_https("broker.example.site"), "https://broker.example.site");
    assert_eq!(with_https("https://broker.example.site"), "https://broker.example.site");
    assert_eq!(with_https("http://broker.example.site"), "http://broker.example.site");
    let mut s = settings(true);
    s.set_broker_url("  broker.example.site ");
    assert_eq!(s.broker_url(), Some("https://broker.example.site"));
    s.set_broker_url("   ");
    assert_eq!(s.broker_url(), None);
}

#[test]
fn a_broker_in_dns_moves_no_configured_machine() {
    let mut s = settings(true);
    s.set_discovered("https://dns.example.site".into());
    assert_eq!(s.broker_url(), Some("https://dns.example.site"));
    s.set_broker_url("https://mine.example.site");
    assert_eq!(s.broker_url(), Some("https://mine.example.site"));
    s.policy.broker_url = Some("https://policy.example.site".into());
    assert_eq!(s.broker_url(), Some("https://policy.example.site"));
    assert!(s.broker_url_locked());
}

#[test]
fn a_grant_learns_what_it_works_as_once() {
    let mut s = settings(true);
    assert!(!s.set_grant_principal("svc@EXAMPLE.SITE"), "without a grant there is nothing to learn");
    s.set_grant(Some(Grant {
        grant_id: "1a2b3c4d".into(),
        identity: "kb1|entra|subject".into(),
        principal: None,
        audience: "kerbridge://EXAMPLE.SITE".into(),
        sign_in_required_by: 1_785_000_000,
    }));
    assert!(s.set_grant_principal("svc@EXAMPLE.SITE"));
    assert!(!s.set_grant_principal("svc@EXAMPLE.SITE"));
    assert_eq!(s.grant().unwrap().principal.as_deref(), Some("svc@EXAMPLE.SITE"));
    s.set_grant(None);
    assert!(s.grant().is_none());
}

#[test]
fn a_realm_is_cached_once() {
    let mut s = settings(true);
    let k = KerberosConfig {
        realm: "EXAMPLE.SITE".into(),
        kdcs: vec!["kdc.example.site".into()],
        services: vec![],
    };
    assert!(s.set_cache(&k));
    assert!(!s.set_cache(&k));
    assert_eq!(s.cache().realm, "EXAMPLE.SITE");
    assert_eq!(s.cache().to_kerberos().kdcs, ["kdc.example.site"]);
}

#[test]
fn a_default_starts_the_agent_and_a_choice_stops_it() {
    let mut s = settings(true);
    s.set_defaults(Defaults { autostart: Some(true), ..Defaults::default() });
    assert_eq!(s.autostart_to_write(false, false), Some(true));
    assert!(s.enforce_autostart(false, false, true), "the seed is recorded");
    s.set_autostart_choice(false);
    assert_eq!(s.autostart_to_write(false, true), None);
    assert!(autostart_active(false, true));
    assert!(autostart_active(true, false));
    assert!(!autostart_active(false, false));
}

#[test]
fn a_missing_file_is_an_empty_one() {
    let s = Settings::new(None, Policy::default(), true);
    assert_eq!(s.broker_url(), None);
    assert_eq!(s.grant_for(), None);
    assert!(!s.browser_session());
    let p = Policy::from_values(Some("  ".into()), Some(" svc ".into()), Some(true), None, None);
    let s = Settings::new(None, p, true);
    assert!(s.autostart_managed());
    assert!(s.grant_for_locked());
}
