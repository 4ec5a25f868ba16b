use agent::launcher::{
    binary_verdict, conclude_launch, validate_binary, ChildEvent, LaunchError, LaunchOutcome,
    LaunchRequest,
};
use agent::runtime::HookPlan;
use agent::services::ServiceSandbox;

#[test]
fn failing_exit_is_a_warning_not_an_error() {
    let r = conclude_launch(ChildEvent::Exited { success: false, code: Some(3) });
    assert_eq!(r.unwrap(), LaunchOutcome::Unexpected { code: Some(3) });
    let r = conclude_launch(ChildEvent::Exited { success: false, code: None });
    assert_eq!(r.unwrap(), LaunchOutcome::Unexpected { code: None });
}

#[test]
fn clean_exit_and_wait_failure() {
    let r = conclude_launch(ChildEvent::Exited { success: true, code: Some(0) });
    assert_eq!(r.unwrap(), LaunchOutcome::Clean);
    let r = conclude_launch(ChildEvent::WaitFailed);
    assert_eq!(r.unwrap(), LaunchOutcome::Unexpected { code: None });
}

#[test]
fn spawn_failure_is_an_error() {
    assert!(matches!(conclude_launch(ChildEvent::SpawnFailed), Err(LaunchError::SpawnFailed)));
}

#[test]
fn missing_executable_is_reported_by_name() {
    match validate_binary("no-such-program-7f3a9c", false) {
        Err(LaunchError::NotFound(p)) => assert_eq!(p, "no-such-program-7f3a9c"),
        other => panic!("unexpected {other:?}"),
    }
    assert!(validate_binary("no-such-program-7f3a9c", true).is_ok());
}

#[test]
fn executable_found_through_lookup() {
    assert!(validate_binary("/bin/sh", false).is_ok());
}

#[test]
fn verdict_table() {
    assert!(binary_verdict("a", true, false).is_ok());
    assert!(binary_verdict("a", false, true).is_ok());
    assert!(matches!(binary_verdict("a", false, false), Err(LaunchError::NotFound(ref p)) if p == "a"));
}

#[test]
fn request_carries_plan() {
    let req = LaunchRequest {
        executable: "app.exe".to_string(),
        args: vec!["-x".to_string()],
        working_dir: Some("R".to_string()),
        hook_plan: HookPlan {
            env: vec![("TEMP".to_string(), "R/temp".to_string())],
            mounts: Vec::new(),
            redirects: Vec::new(),
        },
    };
    let copy = req.clone();
    assert_eq!(copy.hook_plan.env[0].1, "R/temp");
}

#[test]
fn placeholder_service_registration_succeeds() {
    assert!(ServiceSandbox::new().register_placeholder("spooler").is_ok());
}
