use planter::errors::{ErrorCode, PlanterError};
use planter::exec_proto::{ExecErrorCode, ExecResponse, EXECD_PROTOCOL_VERSION};
use planter::ids::CellId;
use planter::platform::{
    kill_tree_step, render_sandbox_profile, spawn_job_step, substitute, KillTreeStep, MacosOps,
    SandboxMode, SpawnStep,
};
use planter::worker_link::{check_exec_reply_id, exec_reply_outcome, hello_reply_outcome};
use planter::worker_mgr::{
    auth_token_for, handshake_outcome, use_inprocess_worker, worker_call_finish, worker_call_step,
    KeepOrTerminate, WorkerCallStep,
};

#[test]
fn worker_call_steps_cover_reuse_and_respawn() {
    assert_eq!(worker_call_step(true, true), WorkerCallStep::Reuse);
    assert_eq!(worker_call_step(true, false), WorkerCallStep::TerminateAndRespawn);
    assert_eq!(worker_call_step(false, false), WorkerCallStep::SpawnFresh);
    assert_eq!(worker_call_finish(true), KeepOrTerminate::StampAndKeep);
    assert_eq!(worker_call_finish(false), KeepOrTerminate::TerminateAndPropagate);
}

#[test]
fn handshake_timeout_is_unavailable() {
    assert!(handshake_outcome(Some(Ok(()))).is_ok());
    let err = PlanterError {
        code: ErrorCode::ProtocolMismatch,
        message: "worker protocol mismatch".to_string(),
        detail: None,
    };
    assert_eq!(handshake_outcome(Some(Err(err.clone()))), Err(err));
    match handshake_outcome(None) {
        Err(e) => assert_eq!(e.code, ErrorCode::Unavailable),
        Ok(_) => panic!("a missed deadline must not pass"),
    }
}

#[test]
fn auth_tokens_carry_pid_and_clock() {
    assert_eq!(auth_token_for(42, 1764), "wkr-42-1764");
}

#[test]
fn inprocess_switch_follows_truthiness_then_binary() {
    assert!(use_inprocess_worker(Some("1".to_string()), true));
    assert!(use_inprocess_worker(Some(" TRUE ".to_string()), true));
    assert!(use_inprocess_worker(Some("Yes".to_string()), true));
    assert!(use_inprocess_worker(Some("on".to_string()), true));
    assert!(!use_inprocess_worker(Some("0".to_string()), false));
    assert!(!use_inprocess_worker(Some("off".to_string()), false));
    assert!(use_inprocess_worker(None, false));
    assert!(!use_inprocess_worker(None, true));
}

#[test]
fn spawn_steps_honor_sandbox_mode() {
    assert_eq!(spawn_job_step(SandboxMode::Disabled, None), SpawnStep::SpawnPlain);
    assert_eq!(spawn_job_step(SandboxMode::Permissive, None), SpawnStep::SpawnSandboxed);
    assert_eq!(
        spawn_job_step(SandboxMode::Permissive, Some(true)),
        SpawnStep::ReopenLogsAndSpawnPlain
    );
    assert_eq!(spawn_job_step(SandboxMode::Enforced, None), SpawnStep::SpawnSandboxed);
    assert_eq!(spawn_job_step(SandboxMode::Enforced, Some(true)), SpawnStep::Surface);
}

#[test]
fn kill_escalation_waits_then_kills_survivors() {
    assert_eq!(kill_tree_step(true, None), KillTreeStep::SendKill);
    assert_eq!(kill_tree_step(false, None), KillTreeStep::SendTermThenWait);
    assert_eq!(kill_tree_step(false, Some(true)), KillTreeStep::SendKill);
    assert_eq!(kill_tree_step(false, Some(false)), KillTreeStep::Done);
}

#[test]
fn substitution_replaces_every_placeholder() {
    assert_eq!(substitute("a {{X}} b {{X}}", "{{X}}", "v"), "a v b v");
    assert_eq!(substitute("{{STATE_ROOT}}_REAL", "{{STATE_ROOT}}", "/s"), "/s_REAL");
    assert_eq!(substitute("none here", "{{X}}", "v"), "none here");
    assert_eq!(substitute("", "{{X}}", "v"), "");
}

#[test]
fn sandbox_profile_renders_placeholders_under_banners() {
    let fragments = vec![
        ("00-header".to_string(), "(version 1)\n; cell {{CELL_ID}}  \n".to_string()),
        (
            "20-filesystem".to_string(),
            "(allow file-write* (subpath \"{{CELL_DIR}}\"))\n".to_string(),
        ),
    ];
    let profile = render_sandbox_profile(
        &fragments,
        "cell-123",
        "/tmp/planter-test-state",
        "/tmp/planter-test-state",
        "/tmp/planter-test-state/cells/cell-123",
        "/tmp/planter-test-state/cells/cell-123",
    );
    assert_eq!(
        profile,
        "; ---- 00-header ----\n(version 1)\n; cell cell-123\n\n; ---- 20-filesystem ----\n(allow file-write* (subpath \"/tmp/planter-test-state/cells/cell-123\"))\n"
    );
}

#[test]
fn worker_errors_map_before_inspection() {
    // An unauthorized worker reply surfaces as unavailable, per the
    // error-propagation mapping.
    let reply = ExecResponse::ExecError {
        code: ExecErrorCode::Unauthorized,
        message: "invalid worker auth token".to_string(),
        detail: None,
    };
    match hello_reply_outcome(reply) {
        Err(e) => assert_eq!(e.code, ErrorCode::Unavailable),
        Ok(_) => panic!("an error reply must not pass the handshake"),
    }
    match hello_reply_outcome(ExecResponse::HelloAck {
        protocol: EXECD_PROTOCOL_VERSION,
        worker_pid: 7,
    }) {
        Ok(()) => {}
        Err(e) => panic!("a matching acknowledgment must pass: {e:?}"),
    }
    match hello_reply_outcome(ExecResponse::HelloAck { protocol: 99, worker_pid: 7 }) {
        Err(e) => assert_eq!(e.code, ErrorCode::ProtocolMismatch),
        Ok(_) => panic!("a version mismatch must not pass"),
    }
    match exec_reply_outcome(ExecResponse::ExecError {
        code: ExecErrorCode::Unsupported,
        message: "not implemented".to_string(),
        detail: None,
    }) {
        Err(e) => assert_eq!(e.code, ErrorCode::InvalidRequest),
        Ok(_) => panic!("an error reply must map to an error"),
    }
    assert!(check_exec_reply_id(4, 4).is_ok());
    assert!(check_exec_reply_id(4, 5).is_err());
}

#[test]
fn platform_paths_and_cell_probe() {
    let ops = MacosOps::new("/tmp/planter-test-state".to_string(), SandboxMode::Permissive);
    assert_eq!(ops.cells_dir(), "/tmp/planter-test-state/cells");
    assert_eq!(ops.logs_dir(), "/tmp/planter-test-state/logs");
    assert_eq!(ops.jobs_dir(), "/tmp/planter-test-state/jobs");
    assert_eq!(ops.sandbox_dir(), "/tmp/planter-test-state/sandbox");
    let cell = CellId("cell-123".to_string());
    assert_eq!(ops.job_meta_path(&planter::ids::JobId("job-1".to_string())),
        "/tmp/planter-test-state/jobs/job-1.json");
    match ops.ensure_cell_exists(&cell, true) {
        Ok(path) => assert_eq!(path, "/tmp/planter-test-state/cells/cell-123"),
        Err(_) => panic!("an existing cell directory must pass"),
    }
    assert!(ops.ensure_cell_exists(&cell, false).is_err());
    // Disk-dependent probe: only its callability is checked here.
    let _ = ops.sandbox_exec_available();
}
