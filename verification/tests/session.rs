use flake::error::{ConfigKey, SyncError};
use flake::session::{parse_interval, parse_seconds, SyncSession, DEFAULT_INTERVAL};

#[test]
fn seconds_are_plain_decimal_numbers() {
    assert_eq!(parse_seconds("1800"), Some(1800));
    assert_eq!(parse_seconds("0"), Some(0));
    assert_eq!(parse_seconds("007"), Some(7));
    assert_eq!(parse_seconds("60"), Some(60));
}

#[test]
fn seconds_may_carry_a_plus_sign() {
    assert_eq!(parse_seconds("+5"), Some(5));
    assert_eq!(parse_seconds("+"), None);
    assert_eq!(parse_seconds("++5"), None);
    assert_eq!(parse_seconds("5+"), None);
}

#[test]
fn seconds_reject_what_is_no_number() {
    assert_eq!(parse_seconds(""), None);
    assert_eq!(parse_seconds("-1"), None);
    assert_eq!(parse_seconds("12a"), None);
    assert_eq!(parse_seconds(" 12"), None);
    assert_eq!(parse_seconds("1.5"), None);
    assert_eq!(parse_seconds("١٢"), None);
}

#[test]
fn seconds_stop_at_the_largest_u64() {
    assert_eq!(parse_seconds("18446744073709551615"), Some(u64::MAX));
    assert_eq!(parse_seconds("18446744073709551616"), None);
    assert_eq!(parse_seconds("99999999999999999999"), None);
    assert_eq!(parse_seconds("184467440737095516150"), None);
    assert_eq!(parse_seconds("00018446744073709551615"), Some(u64::MAX));
}

#[test]
fn parse_seconds_agrees_with_std() {
    for text in ["", "+", "0", "+0", "-0", "42", "+42", "4 2", "18446744073709551615", "18446744073709551616", "x"] {
        assert_eq!(parse_seconds(text), text.parse::<u64>().ok(), "{:?}", text);
    }
}

#[test]
fn interval_defaults_to_half_an_hour() {
    assert_eq!(DEFAULT_INTERVAL, 1800);
    assert_eq!(parse_interval(None), 1800);
    assert_eq!(parse_interval(Some("soon")), 1800);
    assert_eq!(parse_interval(Some("")), 1800);
    assert_eq!(parse_interval(Some("90")), 90);
    assert_eq!(parse_interval(Some("0")), 0);
}

#[test]
fn session_takes_the_repository_of_the_command_line_first() {
    let session = SyncSession::resolve(
        "/home/ada",
        Some("https://example.org/ada/dotfiles.git"),
        Some("git@example.org:ada/other.git"),
        Some("ada"),
        Some("60"),
    )
    .unwrap();
    assert_eq!(session.home_root(), "/home/ada");
    assert_eq!(session.store_root(), "/home/ada/.snowflakes");
    assert_eq!(session.remote_url(), "https://example.org/ada/dotfiles.git");
    assert_eq!(session.username(), "ada");
    assert_eq!(session.tick_interval(), 60);
}

#[test]
fn session_falls_back_to_the_configured_repository() {
    let session =
        SyncSession::resolve("/home/ada", None, Some("git@example.org:ada/dotfiles.git"), Some("ada"), None)
            .unwrap();
    assert_eq!(session.remote_url(), "git@example.org:ada/dotfiles.git");
    assert_eq!(session.tick_interval(), 1800);
}

#[test]
fn session_without_a_repository_is_config_missing() {
    let result = SyncSession::resolve("/home/ada", None, None, Some("ada"), None);
    assert_eq!(result.err(), Some(SyncError::ConfigMissing { key: ConfigKey::Repository }));
}

#[test]
fn session_without_a_username_is_config_missing() {
    let result = SyncSession::resolve("/home/ada", Some("https://example.org/r.git"), None, None, None);
    assert_eq!(result.err(), Some(SyncError::ConfigMissing { key: ConfigKey::Username }));
}

#[test]
fn missing_repository_is_reported_before_missing_username() {
    let result = SyncSession::resolve("/home/ada", None, None, None, Some("5"));
    assert_eq!(result.err(), Some(SyncError::ConfigMissing { key: ConfigKey::Repository }));
}

#[test]
fn configuration_keys_have_their_names() {
    assert_eq!(ConfigKey::Repository.name(), "github.dotfiles");
    assert_eq!(ConfigKey::Username.name(), "github.username");
}
