use rs_utils::EnvValue;
use rs_utils::FileValue;
use rs_utils::RequiredEnv;
use rs_utils::require_env;
use rs_utils::value_from_env_var;
use rs_utils::value_from_file;

#[test]
fn absent_key_is_absent() {
    assert!(matches!(value_from_env_var("NO_SUCH_KEY", None), EnvValue::Absent));
}

#[test]
fn empty_value_is_blank_with_diagnostic() {
    match value_from_env_var("MY_KEY", Some("")) {
        EnvValue::Blank { diagnostic } => {
            assert_eq!(diagnostic, "Env var MY_KEY set but empty.");
        }
        other => panic!("expected Blank, got {other:?}"),
    }
}

#[test]
fn whitespace_only_value_is_blank() {
    match value_from_env_var("SPACES", Some("   \t\n  ")) {
        EnvValue::Blank { diagnostic } => {
            assert_eq!(diagnostic, "Env var SPACES set but empty.");
        }
        other => panic!("expected Blank, got {other:?}"),
    }
}

#[test]
fn unicode_whitespace_only_value_is_blank() {
    match value_from_env_var("NBSP", Some("\u{00A0}\u{2003}\u{3000}")) {
        EnvValue::Blank { .. } => {}
        other => panic!("expected Blank, got {other:?}"),
    }
}

#[test]
fn surrounding_whitespace_is_trimmed() {
    match value_from_env_var("PADDED", Some("  hello  ")) {
        EnvValue::Literal { value } => assert_eq!(value, "hello"),
        other => panic!("expected Literal, got {other:?}"),
    }
}

#[test]
fn inner_whitespace_is_kept() {
    match value_from_env_var("INNER", Some(" a b ")) {
        EnvValue::Literal { value } => assert_eq!(value, "a b"),
        other => panic!("expected Literal, got {other:?}"),
    }
}

#[test]
fn file_directive_yields_path() {
    match value_from_env_var("K", Some("file:/path/to/f")) {
        EnvValue::FileRef { path } => assert_eq!(path, "/path/to/f"),
        other => panic!("expected FileRef, got {other:?}"),
    }
}

#[test]
fn file_directive_is_detected_after_trimming() {
    match value_from_env_var("K", Some("  file:/p  ")) {
        EnvValue::FileRef { path } => assert_eq!(path, "/p"),
        other => panic!("expected FileRef, got {other:?}"),
    }
}

#[test]
fn marker_not_at_start_is_a_literal() {
    match value_from_env_var("K", Some("x file:/p")) {
        EnvValue::Literal { value } => assert_eq!(value, "x file:/p"),
        other => panic!("expected Literal, got {other:?}"),
    }
}

#[test]
fn short_value_resembling_marker_is_a_literal() {
    match value_from_env_var("K", Some("file")) {
        EnvValue::Literal { value } => assert_eq!(value, "file"),
        other => panic!("expected Literal, got {other:?}"),
    }
}

#[test]
fn bare_marker_yields_empty_path() {
    match value_from_env_var("K", Some("file:")) {
        EnvValue::FileRef { path } => assert_eq!(path, ""),
        other => panic!("expected FileRef, got {other:?}"),
    }
}

#[test]
fn file_contents_are_trimmed() {
    match value_from_file("/path/to/f", Ok("secret\n".to_string())) {
        FileValue::Content { value } => assert_eq!(value, "secret"),
        other => panic!("expected Content, got {other:?}"),
    }
}

#[test]
fn unreadable_file_names_path_and_error() {
    match value_from_file("/missing", Err("No such file or directory".to_string())) {
        FileValue::Unreadable { diagnostic } => {
            assert_eq!(diagnostic, "Failed to read file /missing: No such file or directory");
            assert!(diagnostic.contains("/missing"));
        }
        other => panic!("expected Unreadable, got {other:?}"),
    }
}

#[test]
fn required_value_passes_through() {
    match require_env("K", Some("value".to_string())) {
        RequiredEnv::Present { value } => assert_eq!(value, "value"),
        other => panic!("expected Present, got {other:?}"),
    }
}

#[test]
fn missing_required_value_exits_with_status_two() {
    match require_env("DB_URL", None) {
        RequiredEnv::Missing { status, diagnostic } => {
            assert_eq!(status, 2);
            assert_eq!(diagnostic, "Env var DB_URL not set.");
        }
        other => panic!("expected Missing, got {other:?}"),
    }
}
