use kerbridge_client::windows::elevated::relaunch_args;
use kerbridge_client::windows::oneshot::one_shot;

fn parse(argv: &[&str]) -> Result<(Option<String>, String, String), String> {
    let owned: Vec<String> = argv.iter().map(|s| (*s).to_owned()).collect();
    one_shot(&owned)
}

#[test]
fn accepts_both_spellings_of_the_same_verb() {
    let positional = parse(&["--enroll", "https://b.example"]).unwrap();
    let flagged = parse(&["--broker", "https://b.example", "--enroll"]).unwrap();
    assert_eq!(positional, flagged);
    assert_eq!(positional, (Some("--enroll".into()), "https://b.example".into(), String::new()));
}

#[test]
fn no_arguments_means_run_the_tray() {
    assert_eq!(parse(&[]).unwrap(), (None, String::new(), String::new()));
}

#[test]
fn repair_takes_no_broker() {
    assert_eq!(
        parse(&["--repair"]).unwrap(),
        (Some("--repair".into()), String::new(), String::new())
    );
}

/// The child reports through a file the parent names, so the path has to survive
/// alongside either spelling of the verb.
#[test]
fn the_result_path_is_carried_with_either_spelling() {
    let path = r"C:\Users\x\AppData\Local\Temp\kerbridge-elevated-42.txt";
    assert_eq!(parse(&["--repair", "--result", path]).unwrap().2, path);
    assert_eq!(
        parse(&["--enroll", "https://b.example", "--result", path]).unwrap(),
        (Some("--enroll".into()), "https://b.example".into(), path.into())
    );
}

/// The regression: an unknown flag must not fall through to starting a tray, which
/// read as an enrollment that had happened.
#[test]
fn an_unrecognized_flag_is_refused() {
    assert!(parse(&["--enrol", "https://b.example"]).is_err());
    assert!(parse(&["--enroll", "https://b.example", "--wat"]).is_err());
}

#[test]
fn a_refusal_quotes_the_argument() {
    assert_eq!(parse(&["--wat"]).unwrap_err(), "unrecognized argument \"--wat\"");
    assert_eq!(parse(&["a\"b"]).unwrap_err(), "unrecognized argument \"a\\\"b\"");
}

#[test]
fn a_flag_without_its_value_has_an_empty_one() {
    assert_eq!(parse(&["--broker"]).unwrap(), (None, String::new(), String::new()));
    assert_eq!(
        parse(&["--repair", "--result"]).unwrap(),
        (Some("--repair".into()), String::new(), String::new())
    );
}

#[test]
fn a_relaunch_is_read_back() {
    let args = relaunch_args("--reenroll", "https://b.example", "r.txt");
    assert_eq!(
        one_shot(&args).unwrap(),
        (Some("--reenroll".into()), "https://b.example".into(), "r.txt".into())
    );
    assert_eq!(
        one_shot(&relaunch_args("--repair", "", "r.txt")).unwrap(),
        (Some("--repair".into()), String::new(), "r.txt".into())
    );
}
