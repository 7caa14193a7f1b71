use kerbridge_client::describe::{describe, Action, Blocker, Condition, Facts, Fault, Supply};

/// A machine that works: configured, enrolled, holding a ticket, with Windows sign-in
/// behind it.
fn working() -> Facts {
    Facts {
        broker: true,
        realm_known: true,
        enrolled: true,
        ticket: true,
        ticket_late: false,
        expected: true,
        delegated: false,
        grant_valid: false,
        refresh_token: false,
        cloud_session: false,
        windows_sign_in: true,
        grants_enabled: true,
        ntlm_recovery: true,
        ntlm_confirmed: false,
        fault: None,
        flaky_elapsed: false,
        enrollment_platform: true,
        browser_leg: false,
    }
}

/// How the condition is derived, in full. Five rungs, three facts, no network term.
#[test]
fn the_derivation_table() {
    // T ∧ S
    assert_eq!(describe(&working()).condition, Condition::Working);

    // T ∧ ¬S, and the ticket is late enough for its end to be news.
    let f = Facts { windows_sign_in: false, ticket_late: true, ..working() };
    assert_eq!(describe(&f).condition, Condition::WillStop);

    // T ∧ ¬S with most of the ticket still to run.
    let f = Facts { windows_sign_in: false, ..working() };
    assert_eq!(describe(&f).condition, Condition::Working);

    // T ∧ S ∧ the flaky rule.
    let f = Facts { fault: Some(Fault::Network), flaky_elapsed: true, ..working() };
    assert_eq!(describe(&f).condition, Condition::Flaky);

    // ¬T ∧ H
    let f = Facts { ticket: false, ..working() };
    assert_eq!(describe(&f).condition, Condition::Stopped);

    // ¬T ∧ ¬H
    let f = Facts { ticket: false, expected: false, ..working() };
    assert_eq!(describe(&f).condition, Condition::NotStarted);
}

/// A valid TGT the OS cannot spend is not access. Getting this wrong reports `Working`
/// on a machine whose drives do not open.
#[test]
fn an_unusable_ticket_is_not_access() {
    for (realm_known, enrolled) in [(true, false), (false, false)] {
        let f = Facts { realm_known, enrolled, ..working() };
        let d = describe(&f);
        assert_eq!(d.condition, Condition::Stopped, "realm={realm_known} enrolled={enrolled}");
        assert!(!d.usable);
        assert!(!d.actions.contains(&Action::SignIn), "nothing that gets a ticket is offered");
        assert!(!d.actions.contains(&Action::ReinjectTicket));
        assert!(!d.actions.contains(&Action::CreateGrant));
        assert!(!d.actions.contains(&Action::DropKrbTicket));
    }
}

/// Only the timing rule separates `Flaky` from `Working`: a transport failure this
/// minute is not yet news, because it may fix itself.
#[test]
fn flaky_is_a_duration_and_not_a_distance() {
    let f = Facts { fault: Some(Fault::Network), flaky_elapsed: false, ..working() };
    assert_eq!(describe(&f).condition, Condition::Working);

    // And it is transport's alone: a refusal that has stood for a week is a `Refused`
    // blocker, not an uncertain renewal.
    let f = Facts { fault: Some(Fault::Refused), flaky_elapsed: true, ..working() };
    assert_eq!(describe(&f).condition, Condition::Working);
}

/// A first-run machine emits one blocker, not four of which three are consequences of
/// the first.
#[test]
fn entailed_blockers_are_not_emitted() {
    let f = Facts {
        broker: false,
        realm_known: false,
        enrolled: false,
        ticket: false,
        ticket_late: false,
        expected: false,
        windows_sign_in: false,
        ..working()
    };
    let d = describe(&f);
    assert_eq!(d.blockers, vec![Blocker::NoBrokerUrl]);
    assert_eq!(d.actions, vec![Action::OpenSettings]);
    assert_eq!(d.condition, Condition::NotStarted);

    // And an unknown realm suppresses the enrollment blocker beneath it, which would
    // otherwise name a realm nobody has.
    let f = Facts { broker: true, realm_known: false, ..f };
    assert!(!describe(&f).blockers.contains(&Blocker::RealmNotRegistered));
}

/// Two blockers are the honest "nothing you press helps".
#[test]
fn two_blockers_imply_no_action() {
    // Policy refused this grant, on a delegated machine that can get a ticket no other
    // way: authorizing again is the one thing that cannot help.
    let f = Facts { ticket: false, delegated: true, fault: Some(Fault::GrantRefused), ..working() };
    let d = describe(&f);
    assert!(d.blockers.contains(&Blocker::GrantRefused));
    assert!(!d.actions.contains(&Action::CreateGrant));
    assert!(!d.actions.contains(&Action::SignIn), "delegated machines never sign in");

    // An unknown realm waits: no enrollment to apply, nothing to exchange.
    let f = Facts { realm_known: false, ticket: false, ..working() };
    let d = describe(&f);
    assert!(d.blockers.contains(&Blocker::RealmUnknown));
    for a in [Action::Enroll, Action::Reenroll, Action::SignIn, Action::RestartWorkstation] {
        assert!(!d.actions.contains(&a), "{a:?}");
    }
}

/// `RealmNotRegistered` beside `NoSupply` is two immediate facts, not a chain -- the
/// suppression rule must not eat the second.
#[test]
fn two_immediate_blockers_both_stand() {
    let f = Facts {
        enrolled: false,
        ticket: false,
        ticket_late: false,
        expected: false,
        windows_sign_in: false,
        ..working()
    };
    let d = describe(&f);
    assert!(d.blockers.contains(&Blocker::RealmNotRegistered));
    assert!(d.blockers.contains(&Blocker::NoSupply));
    assert!(d.actions.contains(&Action::Enroll), "the one thing that helps is offered");
}

/// S is possession, and on a delegated machine only one thing counts.
#[test]
fn the_supply_is_what_the_worker_would_try() {
    assert_eq!(describe(&working()).supply, Supply::WindowsSignIn);

    let f = Facts { grant_valid: true, ..working() };
    assert_eq!(describe(&f).supply, Supply::Grant, "the grant is tried first");

    let f = Facts { windows_sign_in: false, refresh_token: true, ..working() };
    assert_eq!(describe(&f).supply, Supply::BrowserSignIn);

    // Delegated: a refresh token in memory and a Windows account are both worth
    // nothing, because the exchange guard refuses to use either.
    let f = Facts { delegated: true, refresh_token: true, ticket_late: true, ..working() };
    assert_eq!(describe(&f).supply, Supply::Nothing);
    assert_eq!(describe(&f).condition, Condition::WillStop);
    assert!(describe(&f).blockers.contains(&Blocker::NoGrant));
}

/// Giving up the grant on a delegated machine is what `WillStop` is for: the ticket
/// lives on, and nothing can replace it.
#[test]
fn a_delegated_machine_with_a_grant_works_and_offers_to_give_it_up() {
    let f = Facts { delegated: true, grant_valid: true, ..working() };
    let d = describe(&f);
    assert_eq!(d.condition, Condition::Working);
    assert_eq!(d.supply, Supply::Grant);
    assert!(d.actions.contains(&Action::GiveUpGrant));
    assert!(d.actions.contains(&Action::ReinjectTicket));
    assert!(!d.actions.contains(&Action::SignIn));
    assert!(d.blockers.is_empty());
}

/// Cancel is read in one place only, so it is offered in one place only.
#[test]
fn cancel_is_offered_only_while_a_browser_leg_runs() {
    assert!(!describe(&working()).actions.contains(&Action::Cancel));

    let f = Facts { browser_leg: true, ..working() };
    assert!(describe(&f).actions.contains(&Action::Cancel));
}

/// The one offer about the cloud rather than the realm: there whenever there is a
/// session to release, and nowhere else.
#[test]
fn signing_out_of_the_cloud_is_offered_whenever_there_is_a_session() {
    assert!(!describe(&working()).actions.contains(&Action::SignOutIdp));

    let f = Facts { cloud_session: true, ..working() };
    assert!(describe(&f).actions.contains(&Action::SignOutIdp));

    // Unusable: nothing that gets or spends a ticket survives, and this still does.
    let f = Facts { cloud_session: true, enrolled: false, ..working() };
    let d = describe(&f);
    assert!(d.actions.contains(&Action::SignOutIdp));
    assert!(!d.actions.contains(&Action::SignIn));
    assert!(!d.actions.contains(&Action::ReinjectTicket));

    // And a machine with no broker left to name still has a session of its own to give
    // up.
    let f = Facts { cloud_session: true, broker: false, ..working() };
    assert!(describe(&f).actions.contains(&Action::SignOutIdp));
}

/// The repair is the user's hunch as well as the agent's diagnosis, so the action
/// stands without the blocker -- but not where policy turned the whole machinery off.
#[test]
fn the_repair_is_offered_without_a_diagnosis() {
    let d = describe(&working());
    assert!(d.actions.contains(&Action::RestartWorkstation));
    assert!(!d.blockers.contains(&Blocker::NtlmFallback));

    let f = Facts { ntlm_confirmed: true, ..working() };
    assert!(describe(&f).blockers.contains(&Blocker::NtlmFallback));

    let f = Facts { ntlm_recovery: false, ..working() };
    assert!(!describe(&f).actions.contains(&Action::RestartWorkstation));
}

/// A platform with no enrollment is never offered one, and never blocked on one either.
#[test]
fn a_platform_without_enrollment_offers_none() {
    let f = Facts { enrollment_platform: false, ..working() };
    let d = describe(&f);
    for a in [Action::Enroll, Action::Reenroll, Action::Unenroll] {
        assert!(!d.actions.contains(&a), "{a:?}");
    }
    assert!(d.actions.contains(&Action::SignIn));
}

#[test]
fn the_network_moves_no_rung() {
    for ticket in [true, false] {
        for expected in [true, false] {
            let calm = Facts { ticket, expected, ..working() };
            let down =
                Facts { fault: Some(Fault::Network), flaky_elapsed: true, ticket, expected, ..working() };
            let (calm, down) = (describe(&calm).condition, describe(&down).condition);
            assert!(down == calm || (calm, down) == (Condition::Working, Condition::Flaky));
        }
    }
}
