//! Out-of-process video encoder core: the shared-memory transport protocol
//! (single-slot double-buffer handoff with auto-reset signal turn-taking and
//! an explicit shutdown handshake) and the encode pipeline state machine
//! (lazy color-converter binding, intra-frame forcing, dynamic bitrate,
//! packet draining).
//!
//! The OS shared-memory mapping, the named signal objects and the native
//! codec are external capabilities; this crate holds the value model of the
//! shared region, every decision the pipeline makes, and the contracts that
//! tie them together.

pub mod encoder;
pub mod ipc;
pub mod mainloop;

use vstd::prelude::*;

verus! {

/// Name of the shared memory region both processes open.
pub const SHARED_MEM_NAME: &'static str = "ALVR_ARM64_ENCODER";

/// Name of the auto-reset signal set after a frame is published.
pub const FRAME_READY_EVENT: &'static str = "ALVR_ARM64_FRAME_READY";

/// Name of the auto-reset signal set after a packet is published.
pub const PACKET_READY_EVENT: &'static str = "ALVR_ARM64_PACKET_READY";

/// Name of the manual-reset latch set once the encoder is initialized.
pub const ENCODER_READY_EVENT: &'static str = "ALVR_ARM64_ENCODER_READY";

} // verus!
