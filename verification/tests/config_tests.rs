use intra_cli::config_store::{
    check_client, parse_config, render_config, setup_instructions, validate_config, Credentials,
    ReadOutcome,
};
use intra_cli::CliError;

fn creds(client_id: &str, client_secret: &str, login: &str) -> Credentials {
    Credentials {
        client_id: client_id.to_string(),
        client_secret: client_secret.to_string(),
        login: login.to_string(),
    }
}

#[test]
fn renders_the_three_quoted_lines() {
    let text = render_config(&creds("abc", "secret", "jdoe"));
    assert_eq!(
        text,
        "client_id=\"abc\"\nclient_secret=\"secret\"\nlogin=\"jdoe\"\n"
    );
}

#[test]
fn round_trip_of_interactive_inputs() {
    let text = render_config(&creds("abc", "secret", "jdoe"));
    let back = parse_config(&text).unwrap();
    assert_eq!(back.client_id, "abc");
    assert_eq!(back.client_secret, "secret");
    assert_eq!(back.login, "jdoe");
}

#[test]
fn validate_accepts_well_formed_credentials() {
    let text = render_config(&creds("abc", "secret", "jdoe"));
    let r = validate_config(&ReadOutcome::Content(text));
    assert_eq!(r, Ok(true));
}

#[test]
fn validate_rejects_empty_client_id() {
    let text = render_config(&creds("", "secret", "jdoe"));
    let r = validate_config(&ReadOutcome::Content(text));
    assert_eq!(r, Ok(false));
}

#[test]
fn validate_rejects_overlong_client_secret() {
    let long = "a".repeat(257);
    let text = render_config(&creds("abc", &long, "jdoe"));
    let r = validate_config(&ReadOutcome::Content(text));
    assert_eq!(r, Ok(false));
}

#[test]
fn validate_accepts_field_at_the_length_bound() {
    let bound = "a".repeat(256);
    let text = render_config(&creds(&bound, "secret", "jdoe"));
    let r = validate_config(&ReadOutcome::Content(text));
    assert_eq!(r, Ok(true));
}

#[test]
fn validate_downgrades_missing_file_to_false() {
    assert_eq!(validate_config(&ReadOutcome::NotFound), Ok(false));
    assert_eq!(validate_config(&ReadOutcome::PermissionDenied), Ok(false));
}

#[test]
fn validate_rejects_other_read_failures() {
    // A configuration that cannot be read never validates.
    assert_eq!(validate_config(&ReadOutcome::OtherError), Ok(false));
}

#[test]
fn malformed_line_is_configuration_invalid() {
    let r = parse_config("client_id=\"abc\"\nnonsense\n");
    assert_eq!(r.err(), Some(CliError::ConfigurationInvalid));
}

#[test]
fn unquoted_value_is_configuration_invalid() {
    let r = parse_config("client_id=abc\nclient_secret=\"s\"\nlogin=\"l\"\n");
    assert_eq!(r.err(), Some(CliError::ConfigurationInvalid));
}

#[test]
fn missing_login_key_is_configuration_invalid() {
    let r = parse_config("client_id=\"abc\"\nclient_secret=\"s\"\n");
    assert_eq!(r.err(), Some(CliError::ConfigurationInvalid));
}

#[test]
fn unknown_keys_and_blank_lines_are_ignored() {
    let text = "\nextra=\"x\"\nclient_id=\"abc\"\n\nclient_secret=\"s\"\nlogin=\"l\"";
    let back = parse_config(text).unwrap();
    assert_eq!(back.client_id, "abc");
    assert_eq!(back.client_secret, "s");
    assert_eq!(back.login, "l");
}

#[test]
fn first_occurrence_of_a_key_wins() {
    let text = "client_id=\"one\"\nclient_id=\"two\"\nclient_secret=\"s\"\nlogin=\"l\"\n";
    let back = parse_config(text).unwrap();
    assert_eq!(back.client_id, "one");
}

#[test]
fn check_client_applies_the_invariant() {
    assert!(check_client(&creds("abc", "secret", "jdoe")));
    assert!(!check_client(&creds("", "secret", "jdoe")));
    assert!(!check_client(&creds("abc", "", "jdoe")));
    assert!(!check_client(&creds(&"a".repeat(257), "secret", "jdoe")));
    // The login field is not part of the invariant.
    assert!(check_client(&creds("abc", "secret", "")));
}

#[test]
fn setup_instructions_name_the_redirect_url() {
    let lines = setup_instructions();
    assert_eq!(lines.len(), 3);
    assert_eq!(
        lines[0],
        "Browse to: https://profile.intra.42.fr/oauth/applications/new"
    );
    assert_eq!(lines[1], "Create new Application");
    assert_eq!(lines[2], "Set redirect_url to \"http://localhost:8080\"");
}
