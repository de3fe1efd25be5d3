//! Length-prefixed frame transport: a four-byte big-endian size header
//! followed by exactly that many payload bytes, capped at 8 MiB.

use vstd::prelude::*;
use vstd::string::StringExecFns;
use crate::cbor::{push_bytes, spec_be4};
use crate::textutil::copy_range;

verus! {

/// Maximum payload size accepted by framing helpers.
pub const MAX_FRAME_SIZE: u32 = 8 * 1024 * 1024;

/// Transport and serialization failures for framed socket traffic.
#[derive(Debug, PartialEq, Eq)]
pub enum IpcError {
    /// Underlying socket I/O error description.
    Io(String),
    /// Request or response encoding failed.
    Encode(String),
    /// Request or response decoding failed.
    Decode(String),
    /// Operation exceeded the configured timeout.
    Timeout,
    /// Frame size exceeded the maximum allowed payload.
    FrameTooLarge {
        /// Size the frame declared.
        size: u32,
        /// Largest size accepted.
        max: u32,
    },
    /// Response did not match the request identifier.
    RequestIdMismatch {
        /// Identifier the caller sent.
        expected: u64,
        /// Identifier the peer returned.
        actual: u64,
    },
    /// Peer protocol version did not match the local expectation.
    ProtocolMismatch {
        /// Version this side speaks.
        expected: u32,
        /// Version the peer reported.
        actual: u32,
    },
}

/// One frame: four big-endian size bytes, then the payload.
pub open spec fn spec_frame(p: Seq<u8>) -> Seq<u8> {
    spec_be4(p.len() as u64) + p
}

/// Size a frame header declares.
pub open spec fn spec_frame_size(h: Seq<u8>) -> u64 {
    (h[0] * 0x1000000 + h[1] * 0x10000 + h[2] * 0x100 + h[3]) as u64
}

/// Appends one length-prefixed frame to the output buffer.
///
/// Payloads over the size cap are rejected whole: the error carries the
/// offending size and the cap, and the buffer is unchanged.
pub fn write_frame(out: &mut Vec<u8>, payload: &[u8]) -> (r: Result<(), IpcError>)
    ensures
        payload@.len() <= MAX_FRAME_SIZE ==> r is Ok && final(out)@ == old(out)@ + spec_frame(
            payload@,
        ),
        payload@.len() > MAX_FRAME_SIZE ==> r == Err::<(), IpcError>(
            IpcError::FrameTooLarge {
                size: if payload@.len() > u32::MAX {
                    u32::MAX
                } else {
                    payload@.len() as u32
                },
                max: MAX_FRAME_SIZE,
            },
        ) && final(out)@ == old(out)@,
{
    let len: usize = payload.len();
    if len > MAX_FRAME_SIZE as usize {
        let size: u32 = if len > u32::MAX as usize {
            u32::MAX
        } else {
            len as u32
        };
        return Err(IpcError::FrameTooLarge { size, max: MAX_FRAME_SIZE });
    }
    let size: u64 = len as u64;
    out.push((size / 0x1000000) as u8);
    out.push(((size / 0x10000) % 0x100) as u8);
    out.push(((size / 0x100) % 0x100) as u8);
    out.push((size % 0x100) as u8);
    push_bytes(out, payload);
    proof {
        assert(out@ =~= old(out)@ + spec_frame(payload@));
    }
    Ok(())
}

/// Reads the payload size from a four-byte frame header, rejecting
/// oversize declarations before any payload allocation happens.
pub fn frame_size(header: &[u8]) -> (r: Result<u32, IpcError>)
    requires
        header@.len() == 4,
    ensures
        spec_frame_size(header@) <= MAX_FRAME_SIZE ==> r == Ok::<u32, IpcError>(
            spec_frame_size(header@) as u32,
        ),
        spec_frame_size(header@) > MAX_FRAME_SIZE ==> r == Err::<u32, IpcError>(
            IpcError::FrameTooLarge { size: spec_frame_size(header@) as u32, max: MAX_FRAME_SIZE },
        ),
{
    let size: u64 = (header[0] as u64) * 0x1000000 + (header[1] as u64) * 0x10000 + (header[2]
        as u64) * 0x100 + (header[3] as u64);
    if size > MAX_FRAME_SIZE as u64 {
        Err(IpcError::FrameTooLarge { size: size as u32, max: MAX_FRAME_SIZE })
    } else {
        Ok(size as u32)
    }
}

/// Outcome of reading one frame from a byte buffer: the payload and the
/// remainder, an oversize rejection, or a truncation.
pub open spec fn spec_read_frame(b: Seq<u8>) -> Result<(Seq<u8>, Seq<u8>), IpcError> {
    if b.len() < 4 {
        Err(IpcError::Timeout)
    } else {
        let size = spec_frame_size(b.take(4));
        if size > MAX_FRAME_SIZE {
            Err(IpcError::FrameTooLarge { size: size as u32, max: MAX_FRAME_SIZE })
        } else if b.len() < 4 + size {
            Err(IpcError::Timeout)
        } else {
            Ok((b.subrange(4, 4 + size as int), b.skip(4 + size as int)))
        }
    }
}

/// Reads one length-prefixed frame from a byte buffer.
///
/// A buffer too short for the header or for the declared payload stands
/// for a stream that ended early; an oversize header is rejected before
/// the payload is touched.
pub fn read_frame(buf: &[u8], pos: usize) -> (r: Result<(Vec<u8>, usize), IpcError>)
    requires
        pos <= buf@.len(),
    ensures
        ({
            let s = buf@.skip(pos as int);
            match spec_read_frame(s) {
                Ok((p, rem)) => r matches Ok((v, end)) && v@ == p && pos <= end <= buf@.len()
                    && buf@.skip(end as int) == rem,
                Err(IpcError::FrameTooLarge { size, max }) => r == Err::<(Vec<u8>, usize),
                    IpcError,
                >(IpcError::FrameTooLarge { size, max }),
                Err(_) => r matches Err(IpcError::Io(_)),
            }
        }),
{
    let ghost s = buf@.skip(pos as int);
    let len: usize = buf.len();
    if len - pos < 4 {
        return Err(IpcError::Io(String::from_str("unexpected end of stream")));
    }
    proof {
        assert forall|k: int| 0 <= k < 4 implies s.take(4)[k] == buf@[pos as int + k] by {}
    }
    let size: u64 = (buf[pos] as u64) * 0x1000000 + (buf[pos + 1] as u64) * 0x10000 + (buf[pos + 2]
        as u64) * 0x100 + (buf[pos + 3] as u64);
    if size > MAX_FRAME_SIZE as u64 {
        return Err(IpcError::FrameTooLarge { size: size as u32, max: MAX_FRAME_SIZE });
    }
    if (size as usize) > len - pos - 4 {
        return Err(IpcError::Io(String::from_str("unexpected end of stream")));
    }
    let start = pos + 4;
    let end = start + (size as usize);
    let payload = copy_range(buf, start, end);
    proof {
        assert(buf@.subrange(start as int, end as int) =~= s.subrange(4, 4 + size as int));
        assert(buf@.skip(end as int) =~= s.skip(4 + size as int));
    }
    Ok((payload, end))
}

/// Reading a frame inverts writing one.
pub proof fn lemma_frame_roundtrip(p: Seq<u8>, rest: Seq<u8>)
    requires
        p.len() <= MAX_FRAME_SIZE,
    ensures
        spec_read_frame(spec_frame(p) + rest) == Ok::<(Seq<u8>, Seq<u8>), IpcError>((p, rest)),
{
    let all = spec_frame(p) + rest;
    let h = spec_be4(p.len() as u64);
    assert(all.take(4) =~= h);
    assert((p.len() as u64 / 0x1000000) * 0x1000000 + ((p.len() as u64 / 0x10000) % 0x100)
        * 0x10000 + ((p.len() as u64 / 0x100) % 0x100) * 0x100 + (p.len() as u64) % 0x100 == p.len()
        as u64) by {
        vstd::arithmetic::div_mod::lemma_fundamental_div_mod(p.len() as int, 0x100);
        vstd::arithmetic::div_mod::lemma_div_denominator(p.len() as int, 0x100, 0x100);
        vstd::arithmetic::div_mod::lemma_fundamental_div_mod(p.len() as int / 0x100, 0x100);
        vstd::arithmetic::div_mod::lemma_div_denominator(p.len() as int, 0x10000, 0x100);
        vstd::arithmetic::div_mod::lemma_fundamental_div_mod(p.len() as int / 0x10000, 0x100);
    }
    assert(spec_frame_size(h) == p.len());
    assert(all.subrange(4, 4 + p.len() as int) =~= p);
    assert(all.skip(4 + p.len() as int) =~= rest);
}

} // verus!
