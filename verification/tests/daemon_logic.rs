use planter::cli::{format_detail, parse_env_pairs, SandboxModeArg};
use planter::codec_request::{decode_request, encode_request};
use planter::errors::{ErrorCode, PlanterError};
use planter::exec_proto::{ExecRequest, ExecResponse, EXECD_PROTOCOL_VERSION};
use planter::ids::{JobId, ReqId};
use planter::protocol::{ExitStatus, Request, RequestEnvelope, Response, TerminationReason};
use planter::env_map::EnvMap;
use planter::pty::{
    build_isolated_env, format_output_for_detail, normalize_shell_args, render_bash_rc,
    render_zsh_rc, shell_name, shell_single_quote, truncate_detail, PtySessions,
};
use planter::server::{encode_reply, error_reply_for_bad_frame, extract_req_id};
use planter::store::{
    cell_id_for, default_pty_cell_id, job_id_for, kill_signal, read_log_chunk, remove_cell_plan,
    stdout_path_for, u64_to_string,
};
use planter::worker::{hello_response, map_result, WorkerConfig, WorkerJobs};
use planter::codec_response::decode_response;
use planter::PROTOCOL_VERSION;

fn test_config() -> WorkerConfig {
    WorkerConfig {
        cell_id: "cell-123".to_string(),
        auth_token: "token-123".to_string(),
        state_root: "state".to_string(),
    }
}

#[test]
fn version_round_trip_keeps_req_id() {
    let request = RequestEnvelope { req_id: ReqId(1), body: Request::Version {} };
    let frame = encode_request(&request);
    let decoded = decode_request(&frame).expect("request decode should succeed");
    assert_eq!(decoded.req_id, ReqId(1));
    assert!(matches!(decoded.body, Request::Version {}));

    let reply = encode_reply(
        decoded.req_id,
        Response::Version { daemon: "0.1.0".to_string(), protocol: PROTOCOL_VERSION },
    );
    let reply_env = decode_response(&reply).expect("response decode should succeed");
    assert_eq!(reply_env.req_id, ReqId(1));
    match reply_env.body {
        Response::Version { daemon, protocol } => {
            assert_eq!(daemon, "0.1.0");
            assert_eq!(protocol, 2);
        }
        other => panic!("unexpected response: {other:?}"),
    }
}

#[test]
fn bad_frame_reply_recovers_req_id() {
    // A valid envelope prefix followed by an undecodable body.
    let request = RequestEnvelope { req_id: ReqId(77), body: Request::Health {} };
    let mut frame = encode_request(&request);
    frame.truncate(frame.len() - 1);
    assert_eq!(extract_req_id(&frame), Some(ReqId(77)));
    let reply = error_reply_for_bad_frame(&frame).expect("req_id should be recoverable");
    let env = decode_response(&reply).expect("error reply should decode");
    assert_eq!(env.req_id, ReqId(77));
    match env.body {
        Response::Error { code, .. } => assert_eq!(code, ErrorCode::InvalidRequest),
        other => panic!("unexpected response: {other:?}"),
    }
}

#[test]
fn worker_rejects_wrong_auth_token() {
    let config = test_config();
    let (authed, reply) = hello_response(
        &config,
        EXECD_PROTOCOL_VERSION,
        &"bad".to_string(),
        &"cell-123".to_string(),
        42,
    );
    assert!(!authed);
    match reply {
        ExecResponse::ExecError { code, .. } => {
            assert_eq!(code, planter::exec_proto::ExecErrorCode::Unauthorized)
        }
        other => panic!("unexpected response: {other:?}"),
    }
}

#[test]
fn worker_accepts_matching_hello() {
    let config = test_config();
    let (authed, reply) = hello_response(
        &config,
        EXECD_PROTOCOL_VERSION,
        &"token-123".to_string(),
        &"cell-123".to_string(),
        42,
    );
    assert!(authed);
    assert_eq!(
        reply,
        ExecResponse::HelloAck { protocol: EXECD_PROTOCOL_VERSION, worker_pid: 42 }
    );
}

#[test]
fn job_table_keeps_running_iff_unfinished() {
    let mut jobs = WorkerJobs::new();
    let id = JobId("job-1".to_string());
    assert!(jobs.admit_run_job(&id, false).is_ok());
    jobs.record_started("job-1".to_string(), Some(100));
    // A started job is running and has no finish timestamp.
    let job = jobs.get(&id).expect("job should exist");
    assert!(matches!(job.status, ExitStatus::Running));
    assert_eq!(job.finished_at_ms, None);
    // The same id cannot be reused while present.
    assert!(jobs.admit_run_job(&id, false).is_err());
    // After a signal the job is terminal and has a finish timestamp.
    let job = jobs.apply_signal(&id, true, 5_000).expect("job should exist");
    assert_eq!(job.status, ExitStatus::Exited { code: None });
    assert_eq!(job.finished_at_ms, Some(5_000));
    assert_eq!(job.termination_reason, Some(TerminationReason::ForcedKill));
    // A later wait probe leaves the terminal record alone.
    let job = jobs.apply_wait(&id, Some(Some(0)), 6_000).expect("job should exist");
    assert_eq!(job.finished_at_ms, Some(5_000));
}

#[test]
fn remove_cell_guard_requires_force() {
    let statuses = vec![ExitStatus::Running, ExitStatus::Exited { code: Some(0) }];
    match remove_cell_plan(true, &statuses, false, 9_000) {
        Err(e) => assert_eq!(e.code, ErrorCode::InvalidRequest),
        Ok(_) => panic!("running jobs must block removal without force"),
    }
    let updated = remove_cell_plan(true, &statuses, true, 9_000).expect("force should succeed");
    assert_eq!(updated.len(), 2);
    assert_eq!(
        updated[0],
        (
            ExitStatus::Exited { code: None },
            Some(9_000),
            Some(TerminationReason::ForcedKill)
        )
    );
    assert_eq!(updated[1], (ExitStatus::Exited { code: Some(0) }, None, None));
    assert!(updated.iter().all(|u| !matches!(u.0, ExitStatus::Running)));
    match remove_cell_plan(false, &statuses, true, 9_000) {
        Err(e) => assert_eq!(e.code, ErrorCode::NotFound),
        Ok(_) => panic!("a missing cell is not found"),
    }
}

#[test]
fn pty_read_at_buffer_end_is_eof() {
    let mut sessions = PtySessions::new();
    let sid = sessions.open_session();
    assert!(sessions.append_output(sid.0, b"FOO\r\n"));
    let chunk = sessions.read_chunk(sid.0, 0, 4096).expect("session should exist");
    assert_eq!(chunk.data, b"FOO\r\n".to_vec());
    assert!(chunk.eof);
    assert!(!chunk.complete);
    // Reading at the end of the buffer yields an empty chunk with eof.
    let end = chunk.offset + chunk.data.len() as u64;
    let chunk = sessions.read_chunk(sid.0, end, 4096).expect("session should exist");
    assert!(chunk.data.is_empty());
    assert!(chunk.eof);
    assert!(!chunk.complete);
    // Once the reader thread finishes, the same read is complete.
    assert!(sessions.mark_complete(sid.0, Some(0)));
    let chunk = sessions.read_chunk(sid.0, end, 4096).expect("session should exist");
    assert!(chunk.eof);
    assert!(chunk.complete);
    assert_eq!(chunk.exit_code, Some(0));
    // Closing removes the session.
    sessions.close(sid.0).expect("close should succeed");
    assert!(sessions.read_chunk(sid.0, 0, 1).is_err());
}

#[test]
fn log_chunk_respects_offset_and_cap() {
    let bytes = b"hello-from-job\n";
    let (data, len) = read_log_chunk(bytes, 0, 4096);
    assert_eq!(data, bytes.to_vec());
    assert_eq!(len, bytes.len() as u64);
    let (data, _) = read_log_chunk(bytes, 6, 4);
    assert_eq!(data, b"from".to_vec());
    let (data, _) = read_log_chunk(bytes, 99, 4);
    assert!(data.is_empty());
    let (data, _) = read_log_chunk(bytes, 0, 0);
    assert_eq!(data, b"h".to_vec());
}

#[test]
fn generated_ids_and_paths() {
    assert_eq!(u64_to_string(0), "0");
    assert_eq!(u64_to_string(1764), "1764");
    assert_eq!(cell_id_for(7).0, "cell-7");
    assert_eq!(job_id_for(10).0, "job-10");
    assert_eq!(default_pty_cell_id().0, "cell-pty-default");
    let job = JobId("job-3".to_string());
    assert_eq!(stdout_path_for("/tmp/state/logs", &job), "/tmp/state/logs/job-3.stdout.log");
    assert_eq!(kill_signal(true), "KILL");
    assert_eq!(kill_signal(false), "TERM");
}

#[test]
fn shell_helpers_normalize_arguments() {
    assert_eq!(shell_name("/bin/zsh"), Some("zsh".to_string()));
    assert_eq!(shell_name("/usr/local/bin/BASH"), Some("bash".to_string()));
    assert_eq!(shell_name("fish"), Some("fish".to_string()));
    assert_eq!(shell_name("/bin/"), None);
    let args = normalize_shell_args("/bin/zsh", "/tmp/rc", vec![]);
    assert_eq!(args, vec!["-d".to_string(), "-i".to_string()]);
    let args = normalize_shell_args("/bin/bash", "/tmp/rc", vec!["-i".to_string()]);
    assert_eq!(
        args,
        vec![
            "--noprofile".to_string(),
            "--rcfile".to_string(),
            "/tmp/rc".to_string(),
            "-i".to_string()
        ]
    );
    let args =
        normalize_shell_args("/bin/zsh", "/tmp/rc", vec!["-c".to_string(), "ls".to_string()]);
    assert_eq!(args, vec!["-c".to_string(), "ls".to_string()]);
    assert_eq!(truncate_detail("abcdef", 4), "abcd...");
    assert_eq!(truncate_detail("abc", 4), "abc");
}

#[test]
fn cli_helpers_parse_and_format() {
    assert_eq!(SandboxModeArg::Permissive.as_str(), "permissive");
    assert_eq!(SandboxModeArg::Disabled.as_str(), "disabled");
    assert_eq!(SandboxModeArg::Enforced.as_str(), "enforced");
    assert_eq!(format_detail(&Some("why".to_string())), " (why)");
    assert_eq!(format_detail(&None), "");
    let env = parse_env_pairs(vec!["FOO=bar".to_string(), "X=a=b".to_string()])
        .expect("pairs should parse");
    assert_eq!(env.get("FOO"), Some(&"bar".to_string()));
    assert_eq!(env.get("X"), Some(&"a=b".to_string()));
    assert!(parse_env_pairs(vec!["NOEQUALS".to_string()]).is_err());
}

#[test]
fn map_result_wraps_errors() {
    let err = PlanterError {
        code: ErrorCode::NotFound,
        message: "job does not exist".to_string(),
        detail: None,
    };
    match map_result(Err(err)) {
        ExecResponse::ExecError { code, message, .. } => {
            assert_eq!(code, planter::exec_proto::ExecErrorCode::NotFound);
            assert_eq!(message, "job does not exist");
        }
        other => panic!("unexpected response: {other:?}"),
    }
    let ok = map_result(Ok(ExecResponse::Pong {}));
    assert_eq!(ok, ExecResponse::Pong {});
    // The worker request surface is exercised through its codec elsewhere;
    // a shutdown decision is a plain request value.
    let _ = ExecRequest::Shutdown { force: true };
}

#[test]
fn shell_quoting_and_rc_rendering() {
    assert_eq!(shell_single_quote("plain"), "plain");
    assert_eq!(shell_single_quote("it's"), "it'\\''s");
    let bash = render_bash_rc("/state/sessions/pty-1/build-cell");
    assert!(bash.contains("export PLANTER_BUILD_CELL='/state/sessions/pty-1/build-cell'"));
    assert!(bash.contains("blocked cd outside build cell"));
    let zsh = render_zsh_rc("/state/it's");
    assert!(zsh.contains("PLANTER_BUILD_CELL='/state/it'\\''s'"));
    assert!(zsh.contains("function precmd()"));
}

#[test]
fn isolated_env_drops_reserved_overrides() {
    let mut overrides = EnvMap::new();
    overrides.set("HOME".to_string(), "/evil".to_string());
    overrides.set("CARGO_TERM_COLOR".to_string(), "always".to_string());
    let env = build_isolated_env(
        "/bin/zsh",
        "/s/home",
        "/s/tmp",
        "/s",
        "/s/build-cell",
        "/s/build-cell",
        Some("/usr/bin".to_string()),
        None,
        None,
        &overrides,
    );
    assert_eq!(env.get("HOME"), Some(&"/s/home".to_string()));
    assert_eq!(env.get("CARGO_TERM_COLOR"), Some(&"always".to_string()));
    assert_eq!(env.get("TERM"), Some(&"xterm-256color".to_string()));
    assert_eq!(env.get("PATH"), Some(&"/usr/bin".to_string()));
    assert_eq!(env.get("TMPDIR"), Some(&"/s/tmp/".to_string()));
    assert_eq!(env.get("SHELL"), Some(&"/bin/zsh".to_string()));
    assert_eq!(env.get("PLANTER_SESSION_ROOT"), Some(&"/s".to_string()));
}

#[test]
fn detail_output_is_compacted() {
    assert_eq!(format_output_for_detail(b"", 256), None);
    assert_eq!(format_output_for_detail(b"  \n\t ", 256), None);
    assert_eq!(
        format_output_for_detail(b"  sandbox-exec:   failed\n to start ", 256),
        Some("sandbox-exec: failed to start".to_string())
    );
    assert_eq!(
        format_output_for_detail(b"abcdefgh", 4),
        Some("abcd...".to_string())
    );
}
