use planter::codec_request::{decode_request, encode_request};
use planter::codec_response::{decode_response, encode_response};
use planter::env_map::EnvMap;
use planter::errors::ErrorCode;
use planter::ids::{CellId, JobId, ReqId, SessionId};
use planter::protocol::{
    CommandSpec, LogStream, Request, RequestEnvelope, Response, ResponseEnvelope,
};

#[test]
fn request_envelope_roundtrip_cbor() {
    let mut env = EnvMap::new();
    env.set("FOO".to_string(), "bar".to_string());
    let request = RequestEnvelope {
        req_id: ReqId(42),
        body: Request::JobRun {
            cell_id: CellId("demo".to_string()),
            cmd: CommandSpec {
                argv: vec!["echo".to_string(), "hello".to_string()],
                cwd: None,
                env,
                limits: None,
            },
        },
    };
    let bytes = encode_request(&request);
    let decoded = decode_request(&bytes).expect("request decode should succeed");
    assert_eq!(decoded, request);

    let logs = RequestEnvelope {
        req_id: ReqId(43),
        body: Request::LogsRead {
            job_id: JobId("job-1".to_string()),
            stream: LogStream::Stdout,
            offset: 1024,
            max_bytes: 2048,
            follow: true,
            wait_ms: 500,
        },
    };
    let bytes = encode_request(&logs);
    let decoded = decode_request(&bytes).expect("request decode should succeed");
    assert_eq!(decoded, logs);

    let pty = RequestEnvelope {
        req_id: ReqId(44),
        body: Request::PtyRead {
            session_id: SessionId(45),
            offset: 128,
            max_bytes: 250,
            follow: false,
            wait_ms: 500,
        },
    };
    let bytes = encode_request(&pty);
    let decoded = decode_request(&bytes).expect("request decode should succeed");
    assert_eq!(decoded, pty);

    let version = RequestEnvelope { req_id: ReqId(1), body: Request::Version {} };
    let bytes = encode_request(&version);
    let decoded = decode_request(&bytes).expect("request decode should succeed");
    assert_eq!(decoded, version);
}

#[test]
fn response_envelope_roundtrip_cbor() {
    let version = ResponseEnvelope {
        req_id: ReqId(1000),
        body: Response::Version { daemon: "0.1.0".to_string(), protocol: 2 },
    };
    let bytes = encode_response(&version);
    let decoded = decode_response(&bytes).expect("response decode should succeed");
    assert_eq!(decoded, version);

    let chunk = ResponseEnvelope {
        req_id: ReqId(100),
        body: Response::LogsChunk {
            job_id: JobId("job-1".to_string()),
            stream: LogStream::Stderr,
            offset: 128,
            data: b"shell".to_vec(),
            eof: false,
            complete: false,
        },
    };
    let bytes = encode_response(&chunk);
    let decoded = decode_response(&bytes).expect("response decode should succeed");
    assert_eq!(decoded, chunk);

    let error = ResponseEnvelope {
        req_id: ReqId(100),
        body: Response::Error {
            code: ErrorCode::InvalidRequest,
            message: "bad request".to_string(),
            detail: Some("missing field body".to_string()),
        },
    };
    let bytes = encode_response(&error).to_vec();
    let decoded = decode_response(&bytes).expect("error decode should succeed");
    assert_eq!(decoded, error);
}

#[test]
fn request_roundtrip_keeps_multibyte_text() {
    let request = RequestEnvelope {
        req_id: ReqId(9),
        body: Request::JobStatus { job_id: JobId("job-\u{00e9}\u{4e16}".to_string()) },
    };
    let bytes = encode_request(&request);
    let decoded = decode_request(&bytes).expect("request decode should succeed");
    assert_eq!(decoded, request);
}
