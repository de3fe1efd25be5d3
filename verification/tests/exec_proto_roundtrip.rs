use planter::codec_exec_request::{decode_exec_request, encode_exec_request};
use planter::codec_exec_response::{decode_exec_response, encode_exec_response};
use planter::env_map::EnvMap;
use planter::exec_proto::{
    ExecRequest, ExecRequestEnvelope, ExecResponse, ExecResponseEnvelope, EXECD_PROTOCOL_VERSION,
};
use planter::ids::JobId;
use planter::protocol::CommandSpec;

#[test]
fn roundtrip_hello_request() {
    let request = ExecRequestEnvelope {
        req_id: 42,
        body: ExecRequest::Hello {
            protocol: EXECD_PROTOCOL_VERSION,
            auth_token: "abc123".to_string(),
            cell_id: "cell-1".to_string(),
        },
    };
    let bytes = encode_exec_request(&request);
    let decoded = decode_exec_request(&bytes).expect("decode request");
    assert_eq!(decoded, request);
}

#[test]
fn roundtrip_run_job_request() {
    let request = ExecRequestEnvelope {
        req_id: 7,
        body: ExecRequest::RunJob {
            job_id: JobId("job-1".to_string()),
            cmd: CommandSpec {
                argv: vec!["/bin/sh".to_string(), "-c".to_string(), "echo hi".to_string()],
                cwd: None,
                env: EnvMap::new(),
                limits: None,
            },
            env: EnvMap::new(),
            stdout_path: "/tmp/stdout.log".to_string(),
            stderr_path: "/tmp/stderr.log".to_string(),
        },
    };
    let bytes = encode_exec_request(&request);
    let decoded = decode_exec_request(&bytes).expect("decode request");
    assert_eq!(decoded, request);
}

#[test]
fn roundtrip_response() {
    let response = ExecResponseEnvelope { req_id: 7, body: ExecResponse::Pong {} };
    let bytes = encode_exec_response(&response);
    let decoded = decode_exec_response(&bytes).expect("decode response");
    assert_eq!(decoded, response);
}
