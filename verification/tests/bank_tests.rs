use hindsight_explorer::bank::{profile, shows_spinner, update_name, BankProfile, OutputFormat, Report};

fn sample() -> BankProfile {
    BankProfile {
        bank_id: "alice".to_string(),
        name: "Alice's bank".to_string(),
        background: "Born curious.".to_string(),
    }
}

#[test]
fn spinner_only_for_pretty_output() {
    assert!(shows_spinner(OutputFormat::Pretty));
    assert!(!shows_spinner(OutputFormat::Json));
}

#[test]
fn profile_pretty_is_a_card() {
    let r: Result<Report, String> = profile(Ok(sample()), OutputFormat::Pretty);
    match r {
        Ok(Report::Card { heading, profile }) => {
            assert_eq!(heading, "Bank Profile: alice");
            assert_eq!(profile.bank_id, "alice");
            assert_eq!(profile.name, "Alice's bank");
            assert_eq!(profile.background, "Born curious.");
        }
        other => panic!("unexpected report {:?}", other),
    }
}

#[test]
fn profile_structured_for_json() {
    for format in [OutputFormat::Json] {
        let r: Result<Report, String> = profile(Ok(sample()), format);
        match r {
            Ok(Report::Structured(p)) => {
                assert_eq!(p.bank_id, "alice");
                assert_eq!(p.name, "Alice's bank");
            }
            other => panic!("unexpected report {:?}", other),
        }
    }
}

#[test]
fn profile_passes_failure_on() {
    for format in [OutputFormat::Pretty, OutputFormat::Json] {
        let r = profile(Err("connection refused".to_string()), format);
        match r {
            Err(e) => assert_eq!(e, "connection refused"),
            Ok(other) => panic!("unexpected report {:?}", other),
        }
    }
}

#[test]
fn update_name_pretty_quotes_the_new_name() {
    let r: Result<Report, String> = update_name(Ok(sample()), OutputFormat::Pretty);
    match r {
        Ok(Report::Success(line)) => assert_eq!(line, "Bank name updated to 'Alice's bank'"),
        other => panic!("unexpected report {:?}", other),
    }
}

#[test]
fn update_name_structured_for_json() {
    let r: Result<Report, String> = update_name(Ok(sample()), OutputFormat::Json);
    match r {
        Ok(Report::Structured(p)) => assert_eq!(p.name, "Alice's bank"),
        other => panic!("unexpected report {:?}", other),
    }
}

#[test]
fn update_name_passes_failure_on() {
    let r = update_name(Err(404u32), OutputFormat::Pretty);
    match r {
        Err(e) => assert_eq!(e, 404),
        Ok(other) => panic!("unexpected report {:?}", other),
    }
}
