use planter::framing::{frame_size, read_frame, write_frame, IpcError, MAX_FRAME_SIZE};

#[test]
fn frame_roundtrip() {
    let payload = b"hello-frame";
    let mut wire: Vec<u8> = Vec::new();
    write_frame(&mut wire, payload).expect("write should succeed");
    let (read_back, end) = read_frame(&wire, 0).expect("read should succeed");
    assert_eq!(read_back, payload.to_vec());
    assert_eq!(end, wire.len());
}

#[test]
fn reject_oversized_frame() {
    let payload = vec![0u8; MAX_FRAME_SIZE as usize + 1];
    let mut wire: Vec<u8> = Vec::new();
    match write_frame(&mut wire, &payload) {
        Err(IpcError::FrameTooLarge { size, max }) => {
            assert_eq!(size, 8388609);
            assert_eq!(max, 8388608);
        }
        other => panic!("oversized frame must fail: {other:?}"),
    }
    assert!(wire.is_empty());
}

#[test]
fn detect_truncated_frame_payload() {
    let mut wire: Vec<u8> = Vec::new();
    wire.extend_from_slice(&128u32.to_be_bytes());
    wire.extend_from_slice(b"abc");
    match read_frame(&wire, 0) {
        Err(IpcError::Io(_)) => {}
        other => panic!("truncated frame should fail: {other:?}"),
    }
}

#[test]
fn oversize_header_rejected_before_allocation() {
    let header = (MAX_FRAME_SIZE + 1).to_be_bytes();
    match frame_size(&header) {
        Err(IpcError::FrameTooLarge { size, max }) => {
            assert_eq!(size, 8388609);
            assert_eq!(max, 8388608);
        }
        other => panic!("unexpected result: {other:?}"),
    }
    let header = 4096u32.to_be_bytes();
    assert_eq!(frame_size(&header), Ok(4096));
}
