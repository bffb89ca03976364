use disk_cleaner::platform::Platform;
use disk_cleaner::security::{
    is_application_directory, is_system_directory, validate_path, PathStatus, PathValidation,
    RiskLevel, SecurityValidator,
};

fn linux_home() -> Option<String> {
    Some("/home/alice".to_string())
}

#[test]
fn missing_path_is_critical() {
    let home = None;
    let r = validate_path(
        "/tmp/does-not-exist-xyz",
        PathStatus::Missing,
        &home,
        Platform::Linux,
    );
    assert!(!r.is_safe);
    assert_eq!(r.risk_level, RiskLevel::Critical);
    assert_eq!(r.blocked_reasons, vec!["Path does not exist".to_string()]);
    assert!(r.warnings.is_empty());
}

#[test]
fn file_not_directory_is_critical() {
    let home = None;
    let r = validate_path("/srv/report.txt", PathStatus::NotDirectory, &home, Platform::Linux);
    assert!(!r.is_safe);
    assert_eq!(r.risk_level, RiskLevel::Critical);
    assert_eq!(r.blocked_reasons, vec!["Path is not a directory".to_string()]);
    assert!(r.warnings.is_empty());
}

#[test]
fn etc_directory_is_blocked_high() {
    let home = None;
    let r = validate_path("/etc/cron.d", PathStatus::Directory, &home, Platform::Linux);
    assert!(!r.is_safe);
    assert_eq!(r.risk_level, RiskLevel::High);
    assert_eq!(
        r.blocked_reasons,
        vec!["System directory access is blocked".to_string()]
    );
    assert!(r.warnings.is_empty());
}

#[test]
fn system_directory_wins_over_traversal() {
    let home = None;
    let r = validate_path("/etc/../root", PathStatus::Directory, &home, Platform::Linux);
    assert!(!r.is_safe);
    assert_eq!(r.risk_level, RiskLevel::High);
    assert_eq!(
        r.blocked_reasons,
        vec!["System directory access is blocked".to_string()]
    );
}

#[test]
fn traversal_directory_is_blocked_critical() {
    let home = None;
    let r = validate_path("/srv/foo..bar", PathStatus::Directory, &home, Platform::Linux);
    assert!(!r.is_safe);
    assert_eq!(r.risk_level, RiskLevel::Critical);
    assert_eq!(
        r.blocked_reasons,
        vec!["Path contains traversal patterns".to_string()]
    );
    assert!(r.warnings.is_empty());
}

#[test]
fn dot_slash_is_traversal() {
    let home = None;
    let r = validate_path("/srv/./data", PathStatus::Directory, &home, Platform::Linux);
    assert_eq!(
        r.blocked_reasons,
        vec!["Path contains traversal patterns".to_string()]
    );
    assert_eq!(r.risk_level, RiskLevel::Critical);
}

#[test]
fn dot_backslash_is_traversal() {
    let home = None;
    let r = validate_path("/srv/.\\data", PathStatus::Directory, &home, Platform::Linux);
    assert_eq!(
        r.blocked_reasons,
        vec!["Path contains traversal patterns".to_string()]
    );
}

#[test]
fn home_documents_is_low_risk_with_one_warning() {
    let home = linux_home();
    let r = validate_path("/home/alice/Documents", PathStatus::Directory, &home, Platform::Linux);
    assert!(r.is_safe);
    assert_eq!(r.risk_level, RiskLevel::Low);
    assert_eq!(
        r.warnings,
        vec!["User sensitive directory - review operations carefully".to_string()]
    );
    assert!(r.blocked_reasons.is_empty());
}

#[test]
fn home_itself_draws_sensitive_warning() {
    let home = linux_home();
    let r = validate_path("/home/alice", PathStatus::Directory, &home, Platform::Linux);
    assert!(r.is_safe);
    assert_eq!(r.risk_level, RiskLevel::Low);
    assert_eq!(
        r.warnings,
        vec!["User sensitive directory - review operations carefully".to_string()]
    );
}

#[test]
fn no_home_no_sensitive_warning() {
    let home = None;
    let r = validate_path("/home/alice/Documents", PathStatus::Directory, &home, Platform::Linux);
    assert!(r.is_safe);
    assert_eq!(r.risk_level, RiskLevel::Safe);
    assert!(r.warnings.is_empty());
}

#[test]
fn plain_directory_is_safe() {
    let home = linux_home();
    let r = validate_path("/srv/data", PathStatus::Directory, &home, Platform::Linux);
    assert!(r.is_safe);
    assert_eq!(r.risk_level, RiskLevel::Safe);
    assert!(r.warnings.is_empty());
    assert!(r.blocked_reasons.is_empty());
}

#[test]
fn application_directory_draws_warning() {
    let home = None;
    let r = validate_path("/srv/node_modules", PathStatus::Directory, &home, Platform::Linux);
    assert!(r.is_safe);
    assert_eq!(r.risk_level, RiskLevel::Low);
    assert_eq!(
        r.warnings,
        vec!["Application directory - may affect installed programs".to_string()]
    );
}

#[test]
fn two_warnings_are_low_risk() {
    let home = None;
    // "build" is an application-directory name and '?' is an unsafe character.
    let r = validate_path("/data/build?", PathStatus::Directory, &home, Platform::Linux);
    assert!(r.is_safe);
    assert_eq!(r.risk_level, RiskLevel::Low);
    assert_eq!(
        r.warnings,
        vec![
            "Application directory - may affect installed programs".to_string(),
            "Path contains special characters that may cause issues".to_string(),
        ]
    );
}

#[test]
fn three_warnings_are_medium_risk() {
    let home = None;
    // Deep path + application-directory name + unsafe character.
    let r = validate_path(
        "/a/b/c/d/e/f/g/h/i/j/k/build?",
        PathStatus::Directory,
        &home,
        Platform::Linux,
    );
    assert!(r.is_safe);
    assert_eq!(r.risk_level, RiskLevel::Medium);
    assert_eq!(
        r.warnings,
        vec![
            "Application directory - may affect installed programs".to_string(),
            "Very deep directory path - may cause performance issues".to_string(),
            "Path contains special characters that may cause issues".to_string(),
        ]
    );
}

#[test]
fn non_ascii_path_draws_character_warning() {
    let home = None;
    let r = validate_path("/home/b\u{f6}b", PathStatus::Directory, &home, Platform::Linux);
    assert!(r.is_safe);
    assert_eq!(r.risk_level, RiskLevel::Low);
    assert_eq!(
        r.warnings,
        vec!["Path contains special characters that may cause issues".to_string()]
    );
}

#[test]
fn long_posix_path_draws_length_warning() {
    let home = None;
    let mut path = String::from("/x/");
    path.push_str(&"a".repeat(1000));
    let r = validate_path(&path, PathStatus::Directory, &home, Platform::Linux);
    assert!(r.is_safe);
    assert_eq!(
        r.warnings,
        vec!["Very long path - may cause system limitations".to_string()]
    );
    assert_eq!(r.risk_level, RiskLevel::Low);
}

#[test]
fn windows_length_threshold_is_lower() {
    let home = None;
    let mut path = String::from("D:\\");
    path.push_str(&"a".repeat(260));
    let r = validate_path(&path, PathStatus::Directory, &home, Platform::Windows);
    assert!(r.is_safe);
    // ':' is an unsafe character, and the path is over the Windows limit.
    assert_eq!(
        r.warnings,
        vec![
            "Path contains special characters that may cause issues".to_string(),
            "Very long path - may cause system limitations".to_string(),
        ]
    );
    assert_eq!(r.risk_level, RiskLevel::Low);
}

#[test]
fn windows_system_directory_is_blocked() {
    let home = None;
    let r = validate_path(
        "C:\\Windows\\System32",
        PathStatus::Directory,
        &home,
        Platform::Windows,
    );
    assert!(!r.is_safe);
    assert_eq!(r.risk_level, RiskLevel::High);
    assert_eq!(
        r.blocked_reasons,
        vec!["System directory access is blocked".to_string()]
    );
}

#[test]
fn windows_deny_list_does_not_apply_on_linux() {
    assert!(!is_system_directory("C:\\Windows\\System32", Platform::Linux));
    assert!(is_system_directory("C:\\Windows\\System32", Platform::Windows));
}

#[test]
fn prefix_matching_is_literal() {
    // The deny-list test is a literal prefix match, so "/binary-data"
    // matches the "/bin" entry.
    assert!(is_system_directory("/binary-data", Platform::Linux));
}

#[test]
fn windows_sensitive_directory_uses_backslash() {
    let home = Some("C:\\Users\\bob".to_string());
    let r = validate_path(
        "C:\\Users\\bob\\Documents",
        PathStatus::Directory,
        &home,
        Platform::Windows,
    );
    assert!(r.is_safe);
    assert_eq!(
        r.warnings,
        vec![
            "User sensitive directory - review operations carefully".to_string(),
            "Path contains special characters that may cause issues".to_string(),
        ]
    );
    assert_eq!(r.risk_level, RiskLevel::Low);
}

#[test]
fn classification_is_idempotent() {
    let home = linux_home();
    let first = validate_path("/home/alice/.ssh", PathStatus::Directory, &home, Platform::Linux);
    let second = validate_path("/home/alice/.ssh", PathStatus::Directory, &home, Platform::Linux);
    assert_verdicts_equal(&first, &second);
    let third = validate_path("/etc", PathStatus::Directory, &home, Platform::Linux);
    let fourth = validate_path("/etc", PathStatus::Directory, &home, Platform::Linux);
    assert_verdicts_equal(&third, &fourth);
}

fn assert_verdicts_equal(a: &PathValidation, b: &PathValidation) {
    assert_eq!(a.is_safe, b.is_safe);
    assert_eq!(a.risk_level, b.risk_level);
    assert_eq!(a.warnings, b.warnings);
    assert_eq!(a.blocked_reasons, b.blocked_reasons);
}

#[test]
fn validator_methods_match_rules() {
    assert!(SecurityValidator::is_system_directory("/etc", Platform::Linux));
    assert!(!SecurityValidator::is_system_directory("/srv", Platform::Linux));
    assert!(SecurityValidator::contains_path_traversal("a..b"));
    assert!(!SecurityValidator::contains_path_traversal("a.b"));
    assert!(SecurityValidator::has_unsafe_characters("a<b"));
    assert!(SecurityValidator::has_unsafe_characters("a*b"));
    assert!(SecurityValidator::has_unsafe_characters("a|b"));
    assert!(SecurityValidator::has_unsafe_characters("a\"b"));
    assert!(SecurityValidator::has_unsafe_characters("a>b"));
    assert!(!SecurityValidator::has_unsafe_characters("plain-path_1"));
    assert!(is_application_directory("/srv/app/.git"));
    assert!(is_application_directory("/srv/dist"));
    assert!(!is_application_directory("/srv/sources"));
}

#[test]
fn sensitive_subdirectories_are_recognised() {
    let home = linux_home();
    for sub in [
        "Documents", "Desktop", "Pictures", "Videos", "Music", "Downloads", ".ssh", ".gnupg",
        ".config", ".local",
    ] {
        let path = format!("/home/alice/{}", sub);
        assert!(
            SecurityValidator::is_user_sensitive_directory(&path, &home, Platform::Linux),
            "{} should be sensitive",
            sub
        );
    }
    assert!(!SecurityValidator::is_user_sensitive_directory(
        "/home/alice/Projects",
        &home,
        Platform::Linux
    ));
    assert!(!SecurityValidator::is_user_sensitive_directory(
        "/home/alice/Documents",
        &None,
        Platform::Linux
    ));
}

#[test]
fn path_length_boundaries() {
    let exactly_1000 = "b".repeat(1000);
    assert!(!SecurityValidator::is_path_too_long(&exactly_1000, Platform::Linux));
    let over_1000 = "b".repeat(1001);
    assert!(SecurityValidator::is_path_too_long(&over_1000, Platform::Linux));
    let exactly_250 = "b".repeat(250);
    assert!(!SecurityValidator::is_path_too_long(&exactly_250, Platform::Windows));
    let over_250 = "b".repeat(251);
    assert!(SecurityValidator::is_path_too_long(&over_250, Platform::Windows));
    assert!(!SecurityValidator::is_path_too_long(&over_250, Platform::Linux));
}

#[test]
fn risk_level_aggregation() {
    let no_warnings: Vec<String> = vec![];
    let no_blocks: Vec<String> = vec![];
    assert_eq!(
        SecurityValidator::calculate_risk_level(&no_warnings, &no_blocks),
        (true, RiskLevel::Safe)
    );
    let one = vec!["w".to_string()];
    assert_eq!(
        SecurityValidator::calculate_risk_level(&one, &no_blocks),
        (true, RiskLevel::Low)
    );
    let two = vec!["w".to_string(); 2];
    assert_eq!(
        SecurityValidator::calculate_risk_level(&two, &no_blocks),
        (true, RiskLevel::Low)
    );
    let three = vec!["w".to_string(); 3];
    assert_eq!(
        SecurityValidator::calculate_risk_level(&three, &no_blocks),
        (true, RiskLevel::Medium)
    );
    let blocked = vec!["stop".to_string()];
    assert_eq!(
        SecurityValidator::calculate_risk_level(&three, &blocked),
        (false, RiskLevel::High)
    );
}

#[test]
fn risk_is_monotone_in_warning_count() {
    // 0 warnings -> Safe, 1..=2 -> Low, 3+ -> Medium, checked end to end.
    let home = None;
    let safe = validate_path("/srv/data", PathStatus::Directory, &home, Platform::Linux);
    let low = validate_path("/srv/node_modules", PathStatus::Directory, &home, Platform::Linux);
    let medium = validate_path(
        "/a/b/c/d/e/f/g/h/i/j/k/build?",
        PathStatus::Directory,
        &home,
        Platform::Linux,
    );
    assert_eq!(safe.warnings.len(), 0);
    assert_eq!(low.warnings.len(), 1);
    assert_eq!(medium.warnings.len(), 3);
    assert_eq!(safe.risk_level, RiskLevel::Safe);
    assert_eq!(low.risk_level, RiskLevel::Low);
    assert_eq!(medium.risk_level, RiskLevel::Medium);
}
