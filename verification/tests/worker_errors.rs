use planter::errors::ErrorCode;
use planter::exec_proto::ExecErrorCode;
use planter::worker_link::{is_nested_sandbox_denied_by_parent, map_exec_error};

#[test]
fn detects_nested_sandbox_apply_denial_message() {
    let stderr = b"sandbox-exec: sandbox_apply: Operation not permitted";
    assert!(is_nested_sandbox_denied_by_parent(Some(71), stderr));
    assert!(is_nested_sandbox_denied_by_parent(Some(1), stderr));
}

#[test]
fn ignores_unrelated_sandbox_failures() {
    let stderr = b"sandbox-exec: invalid profile";
    assert!(!is_nested_sandbox_denied_by_parent(Some(1), stderr));
}

#[test]
fn map_exec_error_unavailable() {
    assert_eq!(map_exec_error(ExecErrorCode::Unavailable), ErrorCode::Unavailable);
    assert_eq!(map_exec_error(ExecErrorCode::Unauthorized), ErrorCode::Unavailable);
}
