use kerbridge_client::agent::status::{Status, TicketClock};
use kerbridge_client::agent::{Agent, Outcome, Severity};
use kerbridge_client::config::{Policy, Settings};
use kerbridge_client::describe::{Action, Blocker, Condition, Supply};
use kerbridge_client::enroll::State;
use kerbridge_client::macos::menu::{
    build, opens_a_dialog, outline, plan, Command, Item, Plan, Said,
};
use kerbridge_client::macos::sheets::{
    about_body, about_title, alert_body, detail_line, details_sheet, finished, interruption,
    settings_sheet, Interruption,
};
use kerbridge_client::macos::shown::{
    help_page, shows_itself, start_action, tooltip, Repaint, Shown, Verb,
};
use kerbridge_client::sentence::{say, Phrase};
use kerbridge_client::words::Words;

const NOW: i64 = 1_785_000_000;

fn status() -> Status {
    Status {
        condition: Condition::Working,
        blockers: vec![],
        actions: vec![Action::SignIn, Action::ReinjectTicket, Action::Cancel],
        in_flight: vec![Action::SignIn],
        supply: Supply::BrowserSignIn,
        usable: true,
        realm: "EXAMPLE.SITE".into(),
        source: "entra".into(),
        broker_host: "kerbridge.example.site".into(),
        help_url: String::new(),
        idp_name: "Contoso".into(),
        principal: "alice@EXAMPLE.SITE".into(),
        ticket: Some(TicketClock {
            end: NOW + 3_600,
            remaining: 3_600,
            lifetime: 36_000,
            renewable: false,
        }),
        next_attempt_at_earliest: Some(NOW + 60),
        message: say(Phrase::Silence),
        fault: false,
        holds_grant: false,
        grant_expiry: None,
        grant_target: String::new(),
        just_authorized: false,
    }
}

fn planned(st: &Status) -> Plan {
    let o = outline(st, true, true, true, NOW);
    let said = (0..o.lines.len()).map(|i| format!("line {i}")).collect();
    let labels = (0..o.actions.len()).map(|i| format!("offer {i}")).collect();
    plan(&o, &said, &labels, st)
}

#[test]
fn the_card_counts_down_or_warns() {
    let mut st = status();
    let o = outline(&st, true, true, true, NOW);
    assert!(o.lines.iter().any(|l| matches!(l,
        Said::Labelled { label: Phrase::MeterLabel, duration: 3_600 })));
    st.condition = Condition::WillStop;
    let o = outline(&st, true, true, true, NOW);
    assert!(!o.lines.iter().any(|l| matches!(l, Said::Labelled { .. })));
    let o = outline(&st, false, false, false, NOW);
    assert!(o.lines.is_empty() && !o.headline);
}

#[test]
fn an_offer_that_runs_is_disabled() {
    let p = planned(&status());
    assert!(p.lines[0].headline && !p.lines[1].headline);
    let at = p.actions.iter().position(|o| o.action == Action::SignIn).unwrap();
    assert!(p.actions[at].running);
    let items = build(&p);
    assert!(items.contains(&Item::Offer { index: at, enabled: false }));
    assert_eq!(p.action(at), Some(Action::SignIn));
    assert_eq!(p.action(99), None);
}

#[test]
fn there_is_always_a_way_out() {
    let empty = Plan { lines: vec![], actions: vec![], details: false };
    let items = build(&empty);
    assert_eq!(items.len(), 7);
    assert_eq!(
        items.last(),
        Some(&Item::Entry { label: Phrase::MenuQuit, dialog: false, command: Command::Quit })
    );
    assert_eq!(empty.primary_label("nothing"), "nothing");
    let p = planned(&status());
    let first = p.actions.iter().find(|o| o.action != Action::Cancel).unwrap();
    assert_eq!(p.primary_label("nothing"), first.label);
}

#[test]
fn a_tag_is_one_command() {
    for c in [
        Command::Offer(0),
        Command::Offer(7),
        Command::Details,
        Command::Log,
        Command::Settings,
        Command::Help,
        Command::About,
        Command::Quit,
    ] {
        assert_eq!(Command::from_tag(c.tag()), Some(c));
    }
    assert_eq!(Command::from_tag(-7), None);
    assert_eq!(opens_a_dialog("About"), "About…");
}

#[test]
fn nothing_changed_repaints_nothing() {
    let shown = |tip: &str| Shown {
        condition: Condition::Working,
        tooltip: tip.into(),
        plan: planned(&status()),
    };
    let all = Repaint { image: true, tooltip: true, menu: true };
    assert_eq!(shown("a").refresh(&None, false), all);
    let none = Repaint { image: false, tooltip: false, menu: false };
    assert_eq!(shown("a").refresh(&Some(shown("a")), false), none);
    assert!(shown("b").refresh(&Some(shown("a")), false).tooltip);
    let mut other = shown("a");
    other.plan.lines[1].text = "changed".into();
    assert!(other.refresh(&Some(shown("a")), false).menu);
    assert!(!other.refresh(&Some(shown("a")), true).menu, "not while it is open");
}

#[test]
fn every_offer_can_be_started() {
    for o in planned(&status()).actions {
        assert_ne!(start_action(o.action), Verb::Nothing, "{:?}", o.action);
    }
    assert_eq!(start_action(Action::Enroll), Verb::Nothing);
    assert_eq!(start_action(Action::DropKrbTicket), Verb::DropTicket);
}

#[test]
fn a_machine_without_a_broker_shows_itself() {
    let mut st = status();
    assert!(!shows_itself(&st));
    st.blockers = vec![Blocker::NoBrokerUrl];
    assert!(shows_itself(&st));
    assert_eq!(tooltip("KerBridge", Some("Working")), "KerBridge — Working");
    assert!(help_page("", "en").ends_with("&os=mac"));
    assert!(help_page("https://it.example/h", "en").starts_with("https://it.example/h?"));
}

#[test]
fn a_decline_is_silent() {
    assert!(finished(Action::SignOutIdp, Outcome::Declined).is_none());
    let said = Outcome::Failed { message: say(Phrase::ErrInternal) };
    let failed = finished(Action::SignOutIdp, said).unwrap();
    assert!(!failed.ok && failed.detail.is_empty());
    assert!(matches!(failed.caption, Words::Offer(Action::SignOutIdp)));
    assert_eq!(interruption(Severity::Info), Interruption::Passive);
    assert_eq!(interruption(Severity::Warning), Interruption::Active);
    assert_eq!(alert_body("a", Some("b")), "a\n\nb");
}

#[test]
fn the_details_name_the_realm() {
    let rows = details_sheet(&status());
    let labels: Vec<Phrase> = rows.iter().map(|d| d.label).collect();
    assert_eq!(
        labels,
        [
            Phrase::MeterLabel,
            Phrase::DRealm,
            Phrase::DSource,
            Phrase::DTicket,
            Phrase::DSupply,
            Phrase::DNext,
        ]
    );
    assert_eq!(rows[3].value.phrase, Phrase::DTicketValueNorenew);
    assert_eq!(rows[4].value.phrase, Phrase::DSupplyBrowser);
    assert_eq!(detail_line("Realm", "EXAMPLE.SITE"), "Realm: EXAMPLE.SITE");
}

#[test]
fn the_sheet_hands_back_what_it_does_not_show() {
    let mut settings = Settings::new(None, Policy::default(), false);
    settings.set_broker_url("https://b.example");
    settings.set_grant_for("svc");
    let mut a = Agent::new(settings, State::Enrolled);
    let r = settings_sheet(&mut a, "https://b.example", "b.example", true, false, false, NOW);
    assert!(!r.retargeted, "the same address with its scheme");
    assert_eq!(a.settings.grant_for(), Some("svc"));
    assert_eq!(r.autostart, Some(true));
}

#[test]
fn the_about_box_says_whose_it_is() {
    assert_eq!(about_title("KerBridge", "1.2.3", "No passwords"), "KerBridge 1.2.3 · No passwords");
    assert_eq!(about_body("MIT"), "© 2026 Jarno Elonen\n\nMIT");
}

#[test]
fn a_sheet_that_was_not_edited_pins_nothing() {
    let mut settings = Settings::new(None, Policy::default(), false);
    settings.set_discovered("https://b.example".to_owned());
    let mut a = Agent::new(settings, State::Enrolled);
    let shown = "https://b.example";
    let r = settings_sheet(&mut a, shown, shown, true, true, false, NOW);
    assert!(!r.retargeted);
    assert_eq!((a.settings.file.broker_url.as_deref(), a.settings.file.autostart), (None, None));
    assert_eq!(a.settings.file.windows_sign_in, None);
    let r = settings_sheet(&mut a, shown, "c.example", false, true, false, NOW);
    assert!(r.retargeted);
    assert_eq!(a.settings.broker_url(), Some("https://c.example"));
    assert_eq!(a.settings.file.autostart, Some(false));
}
