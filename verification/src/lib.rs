//! Verified core of a local execution daemon: wire codec, framing,
//! protocol state machines, and metadata bookkeeping.

use vstd::prelude::*;

pub mod cbor;
pub mod cli;
pub mod clock;
pub mod codec_basic;
pub mod codec_exec_request;
pub mod codec_exec_response;
pub mod codec_request;
pub mod codec_response;
pub mod codec_seq;
pub mod codec_structs;
pub mod env_map;
pub mod errors;
pub mod exec_proto;
pub mod framing;
pub mod platform;
pub mod protocol;
pub mod pty;
pub mod ids;
pub mod server;
pub mod store;
pub mod textutil;
pub mod worker;
pub mod worker_link;
pub mod worker_mgr;

verus! {

/// Wire protocol version expected by current binaries.
pub const PROTOCOL_VERSION: u32 = 2;

} // verus!
