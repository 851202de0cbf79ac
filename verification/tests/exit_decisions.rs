use rs_utils::ExitDecision;
use rs_utils::exit_on_error;

#[test]
fn success_passes_value_through_unchanged() {
    match exit_on_error::<u32>(Ok(7), "ctx") {
        ExitDecision::Proceed { value } => assert_eq!(value, 7),
        other => panic!("expected Proceed, got {other:?}"),
    }
}

#[test]
fn failure_terminates_with_status_one() {
    match exit_on_error::<u32>(Err("boom".to_string()), "ctx") {
        ExitDecision::Terminate { status, diagnostic } => {
            assert_eq!(status, 1);
            assert_eq!(diagnostic, "ctx: boom");
            assert!(diagnostic.contains("ctx"));
            assert!(diagnostic.contains("boom"));
        }
        other => panic!("expected Terminate, got {other:?}"),
    }
}

#[test]
fn success_with_string_value() {
    match exit_on_error::<String>(Ok("kept".to_string()), "reading config") {
        ExitDecision::Proceed { value } => assert_eq!(value, "kept"),
        other => panic!("expected Proceed, got {other:?}"),
    }
}
