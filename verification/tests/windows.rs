use kerbridge_client::agent::commands::settings_view;
use kerbridge_client::agent::status::{Status, TicketClock};
use kerbridge_client::agent::{Agent, Outcome, Severity};
use kerbridge_client::config::{Policy, Settings};
use kerbridge_client::describe::{Action, Blocker, Condition, Supply};
use kerbridge_client::elevate::Elevated;
use kerbridge_client::enroll::State as Enrollment;
use kerbridge_client::icon::Badge;
use kerbridge_client::agent::signin::NativeToken;
use kerbridge_client::sentence::{say, Phrase, Slot};
use kerbridge_client::windows::actions::{
    primary_action, shows_itself, start_action, worth_a_notification, Verb,
};
use kerbridge_client::windows::elevated::{
    begin_enroll, begin_unenroll, errand, finish_enroll, finish_repair, finish_unenroll,
    relaunch_code, Errand,
};
use kerbridge_client::windows::flyout;
use kerbridge_client::windows::modal::{
    body_text, footer_places, prompt_for, shielded, Phase, Started, State, CMD_CLOSE, CMD_COMMIT,
};
use kerbridge_client::windows::present::{condition_role, infotip, ranked, rule_role};
use kerbridge_client::windows::settings;
use kerbridge_client::windows::sys::{
    anchor_pos, center_on_work_area, dip, face_name, hiword, loword, to_bgra, wide, Rect,
};
use kerbridge_client::windows::theme::{badge_ink, personalize_dark, rgb, Palette};
use kerbridge_client::windows::tray;
use kerbridge_client::windows::ui;
use kerbridge_client::windows::ui::{Place, Role, Row};
use kerbridge_client::windows::wam;
use kerbridge_client::words::Words;

const NOW: i64 = 1_785_000_000;

fn status() -> Status {
    Status {
        condition: Condition::Working,
        blockers: vec![],
        actions: vec![Action::SignIn, Action::ReinjectTicket, Action::DropKrbTicket],
        in_flight: vec![],
        supply: Supply::WindowsSignIn,
        usable: true,
        realm: "EXAMPLE.SITE".into(),
        source: String::new(),
        broker_host: "kerbridge.example.site".into(),
        help_url: String::new(),
        idp_name: "Contoso".into(),
        principal: "alice@EXAMPLE.SITE".into(),
        ticket: Some(TicketClock {
            end: NOW + 3_600,
            remaining: 3_600,
            lifetime: 36_000,
            renewable: true,
        }),
        next_attempt_at_earliest: None,
        message: say(Phrase::Silence),
        fault: false,
        holds_grant: false,
        grant_expiry: None,
        grant_target: String::new(),
        just_authorized: false,
    }
}

fn place(x: i32, y: i32, w: i32, h: i32) -> Place {
    Place { x, y, w, h }
}

#[test]
fn the_dialog_comes_first() {
    assert_eq!(start_action(Action::SignIn), Verb::SignIn);
    assert_eq!(start_action(Action::ReinjectTicket), Verb::RenewNow);
    assert_eq!(start_action(Action::Unenroll), Verb::Confirm(Action::Unenroll));
    assert_eq!(start_action(Action::GiveUpGrant), Verb::Confirm(Action::GiveUpGrant));
    assert!(shielded(Action::Unenroll) && !shielded(Action::GiveUpGrant));
    assert!(worth_a_notification(false, false) && !worth_a_notification(true, false));
}

#[test]
fn the_front_page_offers_what_is_on_offer() {
    let mut st = status();
    assert_eq!(ranked(&st, NOW), [Action::ReinjectTicket, Action::DropKrbTicket]);
    st.condition = Condition::WillStop;
    // The cheap one outranks the sign-in wherever both are there.
    assert_eq!(
        ranked(&st, NOW),
        [Action::ReinjectTicket, Action::SignIn, Action::DropKrbTicket]
    );
    st.actions = vec![Action::RestartWorkstation, Action::SignOutIdp, Action::CreateGrant];
    assert_eq!(ranked(&st, NOW), []);
    assert_eq!(primary_action(&st, NOW), None);
    st.blockers = vec![Blocker::NtlmFallback];
    st.just_authorized = true;
    st.grant_expiry = Some(NOW + 604_800);
    assert_eq!(
        ranked(&st, NOW),
        [Action::SignOutIdp, Action::RestartWorkstation, Action::CreateGrant]
    );
    assert_eq!(primary_action(&st, NOW), Some(Action::SignOutIdp));
    st.grant_expiry = Some(NOW + 604_801);
    assert_eq!(ranked(&st, NOW).len(), 2);
}

#[test]
fn a_machine_that_needs_telling_shows_itself() {
    let mut st = status();
    assert!(!shows_itself(&st));
    st.blockers = vec![Blocker::RealmNotRegistered];
    assert!(shows_itself(&st));
}

#[test]
fn a_tip_holds_whole_lines() {
    assert_eq!(infotip("KerBridge", None, &vec![]), "KerBridge");
    let lines = vec!["one".to_owned(), "x".repeat(120), "two".to_owned()];
    assert_eq!(infotip("KerBridge", Some("Working"), &lines), "KerBridge — Working\none");
    // A hundred and twenty-seven fit, and one more does not.
    let fits = vec!["x".repeat(127 - 10)];
    assert_eq!(infotip("KerBridge", None, &fits).chars().count(), 127);
    assert_eq!(infotip("KerBridge", None, &vec!["x".repeat(118)]), "KerBridge");
    // Counted in the units a tip is counted in, where a key is two.
    let keys = infotip("KerBridge", None, &vec!["\u{1f511}".repeat(58)]);
    assert_eq!(keys.encode_utf16().count(), 126);
    assert_eq!(infotip("KerBridge", None, &vec!["\u{1f511}".repeat(59)]), "KerBridge");
}

#[test]
fn severity_follows_the_condition() {
    assert_eq!(condition_role(Condition::Working), Role::Good);
    assert_eq!(condition_role(Condition::Stopped), Role::Danger);
    let mut st = status();
    st.blockers = vec![Blocker::NoSupply];
    assert_eq!(rule_role(&st), Role::RuleSub);
    st.fault = true;
    assert_eq!(rule_role(&st), Role::RuleWarn);
    st.condition = Condition::Stopped;
    assert_eq!(rule_role(&st), Role::RuleDanger);
}

#[test]
fn rows_stand_one_under_the_other() {
    let rows = vec![Row::Gap(10), Row::Separator, Row::Bar];
    assert_eq!(ui::place(&rows, &vec![0, 0, 0], 96, 5)[..3], [5, 15, 40]);
    assert_eq!(ui::height(&Row::Separator, 0, 96), 25);
    assert_eq!(ui::height(&Row::Separator, 0, 144), 18 + 1 + 18);
    assert_eq!(dip(10, 144), 15);
    assert_eq!((dip(-10, 120), dip(-7, 97), dip(i32::MIN, 1)), (-12, -7, -22_369_621));
    // A product that no coordinate holds still scales.
    assert_eq!(dip(0x4000_0000, 96), 0x4000_0000);
    assert_eq!(ui::height(&Row::Gap(-10), 0, 144), -15);
    assert_eq!(ui::place(&vec![Row::Bar], &vec![0], 96, i32::MAX - 6), [i32::MAX - 6, i32::MAX]);
}

#[test]
fn a_pair_stays_inside_its_row() {
    let (places, high) = ui::equal_row(&vec![60, 70], &vec![false, false], 16, 100, 200, 96);
    assert_eq!(places, [place(16, 100, 96, 30), place(120, 100, 96, 30)]);
    assert_eq!(high, 30);
    // A label that crosses the line stacks.
    let (places, high) = ui::equal_row(&vec![60, 81], &vec![false, false], 16, 100, 200, 96);
    assert_eq!(places, [place(16, 100, 200, 30), place(16, 136, 200, 30)]);
    assert_eq!(high, 66);
    let (_, high) = ui::equal_row(&vec![60, 70], &vec![false, true], 16, 100, 200, 96);
    assert_eq!(high, 66, "the shield's allowance counts");
}

#[test]
fn measured_buttons_stack_when_they_do_not_fit() {
    let (places, high) = ui::measured_row(&vec![100, 20], &vec![false, false], 80, 0, 0, 300, 96);
    assert_eq!(places, [place(0, 0, 116, 28), place(124, 0, 80, 28)]);
    assert_eq!(high, 28);
    let (places, high) = ui::measured_row(&vec![100, 20], &vec![false, false], 80, 0, 0, 200, 96);
    assert_eq!((places[1].x, places[1].y, high), (0, 34, 62));
}

#[test]
fn a_header_keeps_its_gear_at_the_right() {
    let h = ui::header_places(16, 16, 328, 96);
    assert_eq!(h.logo, place(16, 16, 34, 34));
    assert_eq!(h.gear, place(314, 18, 30, 30));
    assert_eq!(h.title, place(60, 16, 248, 18));
    assert_eq!(ui::meter_position(3_600, 36_000), 100);
    assert_eq!(ui::meter_position(1, 0x7fff_ffff_ffff_ffff), 0);
    assert_eq!(ui::meter_position(9, 3), 1_000);
    assert_eq!(ui::disclosure_text("Details", true), "\u{25be}  Details");
}

#[test]
fn a_button_is_its_action() {
    let mut st = status();
    st.condition = Condition::WillStop;
    let slots = flyout::button_slots(&st, NOW);
    assert_eq!(slots[0], Action::ReinjectTicket);
    for (i, act) in slots.iter().enumerate() {
        let id = flyout::CMD_ACTION_BASE + i as u16;
        assert_eq!(flyout::on_command(id, &slots), flyout::Command::Start(*act));
    }
    assert_eq!(flyout::on_command(99, &slots), flyout::Command::Nothing);
    assert_eq!(flyout::on_command(2, &slots), flyout::Command::Hide);
    assert_eq!(flyout::on_command(121, &slots), flyout::Command::OpenSettings);
}

#[test]
fn the_click_that_closed_it_does_not_open_it() {
    assert_eq!(flyout::toggle(true, None), flyout::Toggle::Hide);
    assert_eq!(flyout::toggle(false, Some(299)), flyout::Toggle::Stay);
    assert_eq!(flyout::toggle(false, Some(300)), flyout::Toggle::Show);
    assert!(!flyout::hides_on_blur(true, true));
    assert!(flyout::takes_command(0x0300_0064, 0) && !flyout::takes_command(0x0300_0064, 1));
}

#[test]
fn the_flyout_says_what_is_missing_once() {
    let mut st = status();
    st.condition = Condition::Stopped;
    st.blockers = vec![Blocker::NoSupply, Blocker::RealmNotRegistered];
    st.message = say(Phrase::ErrInternal);
    let rows = flyout::rebuild(&st, true, true, false, NOW);
    let beside = rows.iter().find_map(|r| match r {
        Row::Rule { role, beside } => Some((*role, *beside)),
        _ => None,
    });
    assert_eq!(beside, Some((Role::RuleDanger, 2)));
    let why = rows
        .iter()
        .filter(|r| matches!(r, Row::Explained { text: Words::Blocked(_), .. }))
        .count();
    assert_eq!(why, 1, "a missing supply is what the headline already says");
    assert!(matches!(rows[0], Row::Header));
    assert!(!rows.iter().any(|r| matches!(r, Row::Marquee)));
    st.in_flight = vec![Action::SignIn];
    assert!(flyout::rebuild(&st, true, true, false, NOW).iter().any(|r| matches!(r, Row::Marquee)));
}

fn done() -> Outcome {
    Outcome::Done { message: say(Phrase::DlgEnrollResult), detail: vec![] }
}

#[test]
fn an_outcome_is_told_once() {
    let mut s = State::default();
    s.open(Action::Enroll, true);
    assert!(s.finished(Action::Enroll, done(), "EXAMPLE.SITE").is_none());
    assert_eq!(s.phase, Some(Phase::Result));
    // Closed in the middle of it, the outcome becomes a notification.
    let mut s = State::default();
    s.open(Action::Enroll, true);
    s.close();
    let d = s.finished(Action::Enroll, done(), "EXAMPLE.SITE").unwrap();
    assert_eq!((d.title.phrase, d.severity), (Phrase::AppName, Severity::Info));
    let failed = Outcome::Failed { message: say(Phrase::EnrollIncomplete) };
    let d = s.finished(Action::Enroll, failed, "EXAMPLE.SITE").unwrap();
    assert_eq!((d.title.phrase, d.severity), (Phrase::FailTitleEnroll, Severity::Error));
    assert_eq!(d.title.args[0].0, Slot::Realm);
}

#[test]
fn declining_returns_to_the_question() {
    let mut s = State::default();
    s.open(Action::Unenroll, true);
    s.phase = Some(Phase::Waiting);
    assert!(s.finished(Action::Unenroll, Outcome::Declined, "R").is_none());
    assert_eq!(s.phase, Some(Phase::Confirm));
}

fn an_agent() -> Agent {
    let mut settings = Settings::new(None, Policy::default(), true);
    settings.set_broker_url("https://b.example");
    Agent::new(settings, Enrollment::Enrolled)
}

#[test]
fn only_shielded_operations_wait() {
    let mut a = an_agent();
    let mut s = State::default();
    s.open(Action::Enroll, true);
    assert!(matches!(s.commit(&mut a, "r.txt"), Some(Started::Elevated(_))));
    assert_eq!(s.phase, Some(Phase::Waiting));
    s.elevation_granted(Action::Enroll);
    assert_eq!(s.phase, Some(Phase::Working));
    assert!(s.ticks());
    assert_eq!((0..5).map(|_| s.second()).collect::<Vec<_>>(), [false, false, false, false, true]);
    // The slot is taken, so nothing else moves.
    let mut other = State::default();
    other.open(Action::Unenroll, true);
    assert!(other.commit(&mut a, "r.txt").is_none());
    assert_eq!(other.phase, Some(Phase::Confirm));
}

#[test]
fn the_safe_answer_is_the_default() {
    let st = status();
    let mut s = State::default();
    assert!(s.layout(prompt_for(Action::Enroll, &st, &vec![], "plan", 30, NOW), &vec![]).is_none());
    s.open(Action::Enroll, true);
    let prompt = prompt_for(Action::Enroll, &st, &vec![], "the plan", 30, NOW);
    assert_eq!(prompt.question.phrase, Phrase::DlgEnrollQuestion);
    let l = s.layout(prompt, &vec![]).unwrap();
    assert_eq!((l.buttons[0].id, l.buttons[1].id), (CMD_COMMIT, CMD_CLOSE));
    assert!(l.buttons[0].shield && !l.buttons[0].primary && l.buttons[1].primary);
    assert!(l.rows.iter().any(|r| matches!(r, Row::Mono { plan } if plan == "the plan")));
    let prompt = prompt_for(Action::Enroll, &st, &vec![], "the plan", 30, NOW);
    let l = s.layout(prompt, &vec![Action::SignIn]).unwrap();
    assert!(!l.buttons[0].enabled, "the slot is taken");
}

#[test]
fn a_restart_names_who_else_pays() {
    let services = vec!["Browser".to_owned(), "Netlogon".to_owned()];
    let with = prompt_for(Action::RestartWorkstation, &status(), &services, "", 30, NOW);
    let without = prompt_for(Action::RestartWorkstation, &status(), &vec![], "", 30, NOW);
    let names = |p: &Vec<kerbridge_client::sentence::Sentence>| {
        p.iter().any(|s| s.phrase == Phrase::DlgRepairDependents)
    };
    assert!(names(&with.body) && !names(&without.body));
}

#[test]
fn a_commit_button_is_at_least_its_floor() {
    let (commit, close) = footer_places(40, false, 16, 200, 400, 96);
    assert_eq!(close, place(306, 200, 110, 30));
    assert_eq!(commit, place(188, 200, 110, 30));
    let (commit, _) = footer_places(140, true, 16, 200, 400, 96);
    assert_eq!(commit, place(124, 200, 174, 30));
    assert_eq!(body_text("Done.", Some("Also this.")), "Done. Also this.");
}

#[test]
fn the_menu_is_the_flyouts_superset() {
    let mut st = status();
    st.actions =
        vec![Action::SignIn, Action::RestartWorkstation, Action::SignOutIdp, Action::OpenSettings];
    let (items, acts) = tray::menu(&st);
    assert_eq!(acts, [Action::SignIn, Action::SignOutIdp, Action::RestartWorkstation]);
    assert_eq!(items.len(), 1 + 3 + 2 + 5);
    assert_eq!(items[2], tray::Item::Offer { act: Action::SignIn, id: 210 });
    for (i, act) in acts.iter().enumerate() {
        assert_eq!(tray::chosen(210 + i, &acts), tray::Choice::Start(*act));
    }
    assert_eq!(tray::chosen(213, &acts), tray::Choice::Nothing);
    assert_eq!(tray::chosen(203, &acts), tray::Choice::Quit);
    st.actions = vec![];
    assert_eq!(tray::menu(&st).0.len(), 6);
}

#[test]
fn messages_and_clicks_are_told_apart() {
    assert_eq!(tray::on_click(0x0202), tray::Click::Toggle);
    assert_eq!(tray::on_click(0x5_0205), tray::Click::Menu);
    assert_eq!(tray::on_message(0xc123, 0, 0, 0xc123), tray::Signal::AddIcon);
    assert_eq!(tray::on_message(0x16, 0, 0, 0), tray::Signal::Default);
    assert_eq!(tray::on_message(0x16, 1, 0, 0), tray::Signal::Leave);
    assert_eq!(tray::on_message(0, 0, 0, 0), tray::Signal::Default);
    assert_eq!(
        tray::on_message(0x401, 0, 0x405, 0),
        tray::Signal::Clicked(tray::Click::Show)
    );
}

#[test]
fn a_field_is_terminated() {
    let mut dst = vec![7u16; 4];
    tray::copy_into(&mut dst, "abcdef");
    assert_eq!(dst, [97, 98, 99, 0]);
    tray::copy_into(&mut dst, "x");
    assert_eq!(dst, [120, 0, 99, 0]);
    let mut none: Vec<u16> = vec![];
    tray::copy_into(&mut none, "x");
    assert!(none.is_empty());
    assert_eq!(tray::balloon_flags(Severity::Error), 0x83);
    assert_eq!(tray::balloon_flags(Severity::Info), 0x80);
}

#[test]
fn a_tick_repaints_what_changed() {
    let mut shown = tray::Shown::new();
    let mut st = status();
    let r = shown.tick(&st, false, true);
    assert!(r.icon && r.flyout);
    let r = shown.tick(&st, false, true);
    assert!(!r.icon && !r.flyout);
    st.ticket.as_mut().unwrap().remaining = 3_599;
    let r = shown.tick(&st, false, true);
    assert!(!r.icon && r.flyout);
    assert!(tray::help_page(&st, "fi").ends_with("?lang=fi&os=win"));
}

#[test]
fn nothing_names_a_realm_before_there_is_one() {
    let a = an_agent();
    let view = settings_view(&a, false, false);
    let st = status();
    let buttons = |rows: &Vec<Row>| rows.iter().filter(|r| matches!(r, Row::Buttons { .. })).count();
    let bare = settings::page_advanced(&view, &st);
    let mut with = settings_view(&a, false, false);
    with.realm = "EXAMPLE.SITE".into();
    let whole = settings::page_advanced(&with, &st);
    assert!(buttons(&whole) > buttons(&bare));
    assert!(whole.len() > bare.len());
    assert!(matches!(settings::page_about()[0], Row::About));
}

#[test]
fn an_untouched_page_is_not_dirty() {
    let a = an_agent();
    let view = settings_view(&a, false, false);
    let held = settings::Committed::of(&view);
    assert!(!held.dirty("https://b.example", None));
    assert!(!held.dirty("https://b.example", Some("")));
    assert!(held.dirty("https://c.example", None));
    assert!(held.dirty("https://b.example", Some("svc")));
    assert!(!settings::page_basic(&view).is_empty());
}

#[test]
fn a_toggle_never_retargets() {
    let mut a = an_agent();
    a.settings.set_grant_for("svc");
    let r = settings::apply_toggles(&mut a, true, true, false, false, NOW);
    assert!(!r.retargeted);
    assert_eq!(a.settings.grant_for(), Some("svc"));
    // A target field that is not on its page clears nothing.
    let held = settings::Committed::of(&settings_view(&a, true, false));
    let r = settings::save(
        &mut a,
        &held,
        "https://c.example",
        None,
        true,
        true,
        false,
        false,
        NOW,
    );
    assert!(r.retargeted);
    assert_eq!(a.settings.grant_for(), Some("svc"));
}

#[test]
fn settings_commands_are_told_apart() {
    assert_eq!(settings::on_command(400, 0), settings::Command::Save);
    assert_eq!(settings::on_command(403, 0x300), settings::Command::Edited);
    assert_eq!(settings::on_command(403, 0), settings::Command::Nothing);
    assert_eq!(settings::on_command(408, 0), settings::Command::Start(Action::Unenroll));
    assert_eq!(settings::hot_moved(-1, 2), [2]);
    assert_eq!(settings::hot_moved(0, 2), [0, 2]);
    assert_eq!(settings::tab_label(1), Phrase::TabAdvanced);
    let p = settings::layout_pages(&vec![300, 420, 200], 30, 28);
    assert_eq!((p.tab_h, p.page_top, p.page_h), (450, 28, 422));
}

#[test]
fn no_enrollment_is_made_up() {
    assert_eq!(begin_enroll(None, false).unwrap().message.phrase, Phrase::EnrollDiscoveryFailed);
    let already = begin_enroll(Some(("R", &Enrollment::Enrolled)), false).unwrap();
    assert!(already.ok && already.exit_code() == 0);
    assert!(begin_enroll(Some(("R", &Enrollment::Enrolled)), true).is_none());
    assert!(begin_enroll(Some(("R", &Enrollment::NotEnrolled)), false).is_none());
    let stale = Enrollment::Stale(vec!["kdc".into()]);
    assert_eq!(finish_enroll("R", &stale).exit_code(), 1);
    assert!(begin_unenroll(Some(("R", &Enrollment::NotEnrolled))).unwrap().ok);
    assert!(!finish_unenroll("R", &Enrollment::Enrolled).ok);
    assert!(!finish_repair(false).ok);
    assert_eq!(errand("--reenroll"), Errand::Enroll { force: true });
    assert_eq!(relaunch_code(Some(Elevated::Ran(7))), 7);
    assert_eq!(relaunch_code(Some(Elevated::Declined)), 1);
}

#[test]
fn a_popup_stays_inside_the_work_area() {
    let area = |left, top| Some(Rect { left, top, right: 1920, bottom: 1040 });
    assert_eq!(anchor_pos(area(0, 0), 360, 500, 12), (1548, 528));
    assert_eq!(anchor_pos(area(0, 40), 360, 500, 12), (1548, 52));
    assert_eq!(anchor_pos(area(60, 0), 360, 500, 12), (72, 528));
    assert_eq!(anchor_pos(None, 360, 500, 12), (120, 120));
    assert_eq!(center_on_work_area(area(0, 0), 400, 300), (760, 370));
}

#[test]
fn words_pack_and_texts_widen() {
    assert_eq!((loword(0x1234_5678), hiword(0x1234_5678)), (0x5678, 0x1234));
    let text = "a€😀";
    let expected: Vec<u16> = text.encode_utf16().chain(Some(0)).collect();
    assert_eq!(wide(text), expected);
    let face = face_name(&"x".repeat(40));
    assert_eq!((face.len(), face[30], face[31]), (32, 120, 0));
    assert_eq!(to_bgra(&vec![1, 2, 3, 4, 5, 6, 7, 8]), [3, 2, 1, 4, 7, 6, 5, 8]);
}

#[test]
fn channels_are_packed() {
    assert_eq!(rgb(0xfc, 0xb7, 0x43), 0x0043_b7fc);
    assert_eq!(badge_ink(Badge::Warn, true), (0xfc, 0xb7, 0x43));
    assert_eq!(badge_ink(Badge::Stop, false), (0xc4, 0x2b, 0x1c));
    assert!(personalize_dark(Some(0)) && !personalize_dark(None));
    assert_ne!(Palette::of(true).bg, Palette::of(false).bg);
}

#[test]
fn no_oidc_scope_is_asked_for() {
    let scopes = |s: &[&str]| s.iter().map(|x| (*x).to_owned()).collect::<Vec<_>>();
    assert_eq!(
        wam::broker_scope(&scopes(&["openid", "api://b/.default", "offline_access"])).as_deref(),
        Some("api://b/.default")
    );
    assert_eq!(wam::broker_scope(&scopes(&["openid", "email"])), None);
    assert_eq!(wam::wam_authority("https://login.example/t/v2.0/"), "https://login.example/t");
    assert!(matches!(
        wam::acquire(wam::Answer::Success("T".into())),
        NativeToken::Token(t) if t == "T"
    ));
    assert!(matches!(wam::acquire(wam::Answer::NeedsUser), NativeToken::Unavailable));
    assert_eq!(wam::describe(Some((0xcaa2_0003, "no"))), ": 0xcaa20003 no");
    assert_eq!(wam::describe(None), "");
}

#[test]
fn saving_an_untouched_page_pins_nothing() {
    let mut settings = Settings::new(None, Policy::default(), true);
    settings.set_discovered("https://b.example".to_owned());
    let mut a = Agent::new(settings, Enrollment::Enrolled);
    let view = settings_view(&a, false, false);
    let held = settings::Committed::of(&view);
    let r = settings::save(
        &mut a,
        &held,
        &view.broker_url,
        Some(&view.grant_for),
        view.autostart,
        false,
        false,
        view.windows_sign_in,
        NOW,
    );
    assert!(!r.retargeted);
    assert_eq!(a.settings.file.broker_url, None, "it still follows the record");
    assert_eq!(a.settings.file.windows_sign_in, None);
    // An edited target alone pins no broker either.
    let r = settings::save(
        &mut a,
        &held,
        &view.broker_url,
        Some("svc"),
        false,
        false,
        false,
        true,
        NOW,
    );
    assert!(!r.retargeted);
    assert_eq!((a.settings.file.broker_url.as_deref(), a.settings.grant_for()), (None, Some("svc")));
}

#[test]
fn a_box_that_policy_decides_does_not_move() {
    let policy = Policy {
        windows_sign_in: Some(true),
        autostart: Some(false),
        ..Policy::default()
    };
    let a = Agent::new(Settings::new(None, policy, true), Enrollment::Enrolled);
    let rows = settings::page_basic(&settings_view(&a, false, false));
    let boxes: Vec<(bool, bool)> = rows
        .iter()
        .filter_map(|r| match r {
            Row::Checkbox { checked, enabled, .. } => Some((*checked, *enabled)),
            _ => None,
        })
        .collect();
    assert_eq!(boxes, [(false, false), (true, false)]);
    let cues: Vec<&str> = rows
        .iter()
        .filter_map(|r| match r {
            Row::Edit { cue, .. } => Some(cue.as_str()),
            _ => None,
        })
        .collect();
    assert_eq!(cues, ["kerbridge.example.site"]);
}

#[test]
fn utf16_reads_back() {
    for text in [
        "",
        "KerBridge",
        "tikettiä",
        "日本語",
        "\u{1f511} a\u{10ffff}\u{10000}",
        "\u{ffff}\u{e000}\u{d7ff}",
    ] {
        let w = wide(text);
        assert_eq!(w.last(), Some(&0));
        assert_eq!(String::from_utf16(&w[..w.len() - 1]).unwrap(), text);
    }
    assert_eq!(wide("\u{1f511}"), [0xd83d, 0xdd11, 0]);
}
