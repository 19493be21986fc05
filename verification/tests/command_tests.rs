use intra_cli::command::{dispatch, parse_command, Command};
use intra_cli::profile::{CursusEntry, UserProfile, UserSummary};
use intra_cli::CliError;

/// 2024-01-01T00:00:00Z, the "current time" of the blackhole scenarios.
const NOW: i64 = 1704067200;

fn profile() -> UserProfile {
    UserProfile {
        displayname: "Jane Doe".to_string(),
        login: "jdoe".to_string(),
        email: "jdoe@student.42.fr".to_string(),
        wallet: 500,
        correction_point: 7,
        titles: vec!["Knight of the Terminal".to_string()],
        cursus: vec![
            CursusEntry {
                name: "Piscine".to_string(),
                grade: None,
                blackholed_at: None,
            },
            CursusEntry {
                name: "42cursus".to_string(),
                grade: Some("Member".to_string()),
                blackholed_at: Some("2099-01-01T00:00:00Z".to_string()),
            },
        ],
    }
}

fn summary() -> UserSummary {
    UserSummary { id: 42 }
}

#[test]
fn parse_command_knows_all_seven_words() {
    assert_eq!(parse_command("id"), Ok(Command::Id));
    assert_eq!(parse_command("me"), Ok(Command::Me));
    assert_eq!(parse_command("email"), Ok(Command::Email));
    assert_eq!(parse_command("login"), Ok(Command::Login));
    assert_eq!(parse_command("correction_point"), Ok(Command::CorrectionPoint));
    assert_eq!(parse_command("wallet"), Ok(Command::Wallet));
    assert_eq!(parse_command("blackhole"), Ok(Command::Blackhole));
}

#[test]
fn unrecognized_command_word_fails_loudly() {
    assert_eq!(parse_command("correctionpoint"), Err(CliError::UnknownCommand));
    assert_eq!(parse_command("walet"), Err(CliError::UnknownCommand));
    assert_eq!(parse_command(""), Err(CliError::UnknownCommand));
    assert_eq!(parse_command("Wallet"), Err(CliError::UnknownCommand));
}

#[test]
fn wallet_of_500_prints_the_padded_line() {
    let (lines, err) = dispatch(Command::Wallet, &summary(), &profile(), NOW);
    assert_eq!(err, None);
    assert_eq!(lines, vec!["Wallet              500".to_string()]);
}

#[test]
fn negative_wallet_keeps_its_sign() {
    let mut p = profile();
    p.wallet = -5;
    let (lines, err) = dispatch(Command::Wallet, &summary(), &p, NOW);
    assert_eq!(err, None);
    assert_eq!(lines, vec!["Wallet              -5".to_string()]);
}

#[test]
fn id_comes_from_the_summary_not_the_profile() {
    let (lines, err) = dispatch(Command::Id, &summary(), &profile(), NOW);
    assert_eq!(err, None);
    assert_eq!(lines, vec!["ID                  42".to_string()]);
}

#[test]
fn login_email_and_correction_point_lines() {
    let p = profile();
    let s = summary();
    assert_eq!(
        dispatch(Command::Login, &s, &p, NOW).0,
        vec!["Login               jdoe".to_string()]
    );
    assert_eq!(
        dispatch(Command::Email, &s, &p, NOW).0,
        vec!["Email               jdoe@student.42.fr".to_string()]
    );
    assert_eq!(
        dispatch(Command::CorrectionPoint, &s, &p, NOW).0,
        vec!["Correction point    7".to_string()]
    );
}

#[test]
fn blackhole_counts_whole_days_until_the_deadline() {
    // 2024-01-01 to 2099-01-01: 75 years of 365 days plus 19 leap days.
    let (lines, err) = dispatch(Command::Blackhole, &summary(), &profile(), NOW);
    assert_eq!(err, None);
    assert_eq!(lines, vec!["Blackhole           27394".to_string()]);
}

#[test]
fn wallet_at_the_integer_extremes() {
    let mut p = profile();
    p.wallet = i64::MIN;
    let (lines, _) = dispatch(Command::Wallet, &summary(), &p, NOW);
    assert_eq!(lines, vec!["Wallet              -9223372036854775808".to_string()]);
    p.wallet = i64::MAX;
    let (lines, _) = dispatch(Command::Wallet, &summary(), &p, NOW);
    assert_eq!(lines, vec!["Wallet              9223372036854775807".to_string()]);
    p.wallet = 0;
    let (lines, _) = dispatch(Command::Wallet, &summary(), &p, NOW);
    assert_eq!(lines, vec!["Wallet              0".to_string()]);
}

#[test]
fn partial_days_truncate_toward_zero_in_both_directions() {
    let mut p = profile();
    // 100 seconds before and after the current time are both zero whole days.
    p.cursus[1].blackholed_at = Some("2024-01-01T00:01:40Z".to_string());
    let (lines, _) = dispatch(Command::Blackhole, &summary(), &p, NOW);
    assert_eq!(lines, vec!["Blackhole           0".to_string()]);
    p.cursus[1].blackholed_at = Some("2023-12-31T23:58:20Z".to_string());
    let (lines, _) = dispatch(Command::Blackhole, &summary(), &p, NOW);
    assert_eq!(lines, vec!["Blackhole           0".to_string()]);
}

#[test]
fn blackhole_already_past_is_negative() {
    let mut p = profile();
    p.cursus[1].blackholed_at = Some("2020-01-01T00:00:00Z".to_string());
    let (lines, err) = dispatch(Command::Blackhole, &summary(), &p, NOW);
    assert_eq!(err, None);
    assert_eq!(lines, vec!["Blackhole           -1461".to_string()]);
}

#[test]
fn blackhole_without_timestamp_is_a_parse_failure() {
    let mut p = profile();
    p.cursus[1].blackholed_at = None;
    let (lines, err) = dispatch(Command::Blackhole, &summary(), &p, NOW);
    assert_eq!(lines, Vec::<String>::new());
    assert_eq!(err, Some(CliError::TimestampParse));
}

#[test]
fn blackhole_with_unparsable_timestamp_is_a_parse_failure() {
    let mut p = profile();
    p.cursus[1].blackholed_at = Some("not-a-date".to_string());
    let (_, err) = dispatch(Command::Blackhole, &summary(), &p, NOW);
    assert_eq!(err, Some(CliError::TimestampParse));
}

#[test]
fn blackhole_without_second_cursus_is_a_shape_failure() {
    let mut p = profile();
    p.cursus.truncate(1);
    let (lines, err) = dispatch(Command::Blackhole, &summary(), &p, NOW);
    assert_eq!(lines, Vec::<String>::new());
    assert_eq!(err, Some(CliError::Deserialization));
}

#[test]
fn me_prints_all_six_lines() {
    let (lines, err) = dispatch(Command::Me, &summary(), &profile(), NOW);
    assert_eq!(err, None);
    assert_eq!(
        lines,
        vec![
            "Jane Doe | Knight jdoe".to_string(),
            "Wallet              500".to_string(),
            "Correction point    7".to_string(),
            "Cursus              42cursus".to_string(),
            "Grade               Member".to_string(),
            "Blackhole           27394".to_string(),
        ]
    );
}

#[test]
fn me_with_no_titles_has_an_empty_title_segment() {
    let mut p = profile();
    p.titles = Vec::new();
    let (lines, err) = dispatch(Command::Me, &summary(), &p, NOW);
    assert_eq!(err, None);
    assert_eq!(lines[0], "Jane Doe |  jdoe");
}

#[test]
fn me_with_missing_grade_leaves_the_value_empty() {
    let mut p = profile();
    p.cursus[1].grade = None;
    let (lines, _) = dispatch(Command::Me, &summary(), &p, NOW);
    assert_eq!(lines[4], "Grade               ");
}

#[test]
fn me_without_second_cursus_stops_after_three_lines() {
    let mut p = profile();
    p.cursus.truncate(1);
    let (lines, err) = dispatch(Command::Me, &summary(), &p, NOW);
    assert_eq!(lines.len(), 3);
    assert_eq!(lines[0], "Jane Doe | Knight jdoe");
    assert_eq!(err, Some(CliError::Deserialization));
}

#[test]
fn me_with_bad_timestamp_keeps_the_five_lines_before_the_failure() {
    let mut p = profile();
    p.cursus[1].blackholed_at = None;
    let (lines, err) = dispatch(Command::Me, &summary(), &p, NOW);
    assert_eq!(lines.len(), 5);
    assert_eq!(err, Some(CliError::TimestampParse));
}
