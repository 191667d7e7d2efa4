use plaid::Environment;

#[test]
fn parses_each_environment_ignoring_ascii_case() {
    assert_eq!(Environment::parse("production"), Ok(Environment::Production));
    assert_eq!(Environment::parse("Development"), Ok(Environment::Development));
    assert_eq!(Environment::parse("SANDBOX"), Ok(Environment::Sandbox));
    assert_eq!("sandbox".parse::<Environment>(), Ok(Environment::Sandbox));
    assert_eq!(Environment::try_from("PRODUCTION"), Ok(Environment::Production));
    assert_eq!(Environment::try_from("development".to_string()), Ok(Environment::Development));
}

#[test]
fn unknown_environment_is_rejected_with_its_lowered_name() {
    assert_eq!(
        Environment::parse("Staging"),
        Err("invalid Plaid Environment: `staging`".to_string())
    );
    assert_eq!(Environment::parse(""), Err("invalid Plaid Environment: ``".to_string()));
    assert_eq!(
        Environment::parse("productions"),
        Err("invalid Plaid Environment: `productions`".to_string())
    );
}

#[test]
fn environment_names_are_lower_case() {
    assert_eq!(Environment::Production.to_string(), "production");
    assert_eq!(Environment::Development.to_string(), "development");
    assert_eq!(Environment::Sandbox.to_string(), "sandbox");
}
