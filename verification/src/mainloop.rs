//! Control decisions of the main loop. The loop itself is purely reactive:
//! wait for a frame, encode it, publish the packets, repeat. Which of those
//! a given receive outcome leads to — clean termination on a shutdown frame,
//! encoding for an ordinary frame, or a short backoff and retry after a
//! failure — is decided here; only startup failures are fatal, every
//! steady-state failure is isolated to its iteration.

use vstd::prelude::*;

use crate::ipc::{EncoderError, FrameData};

verus! {

/// What the main loop does with the outcome of one receive attempt.
#[derive(Debug)]
pub enum LoopStep {
    /// A shutdown-flagged frame arrived: terminate cleanly, without
    /// invoking the encoder.
    Shutdown,
    /// An ordinary frame arrived: encode it and publish its packets.
    Encode(FrameData),
    /// The receive failed: abandon this iteration and retry after a short
    /// fixed backoff; a dropped frame is better than a dead loop.
    Retry,
}

/// Classification of a receive outcome: a failure is retried, a shutdown
/// frame terminates, anything else is encoded.
pub open spec fn loop_step_spec(r: Result<FrameData, EncoderError>) -> LoopStep {
    match r {
        Err(_) => LoopStep::Retry,
        Ok(f) => if f.shutdown {
            LoopStep::Shutdown
        } else {
            LoopStep::Encode(f)
        },
    }
}

/// Decides the loop's next step from the outcome of one receive.
pub fn next_step(r: Result<FrameData, EncoderError>) -> (s: LoopStep)
    ensures
        s == loop_step_spec(r),
{
    match r {
        Err(_) => LoopStep::Retry,
        Ok(f) => {
            if f.shutdown {
                LoopStep::Shutdown
            } else {
                LoopStep::Encode(f)
            }
        },
    }
}

/// How long the loop waits before retrying after a failed receive,
/// in milliseconds.
pub fn retry_backoff_millis() -> (r: u64)
    ensures
        r == 10,
{
    10
}

/// Law: a received frame with the shutdown flag set terminates the main
/// loop cleanly — its classification is `Shutdown`, never `Encode`, so the
/// encoder is not invoked for it. And a receive failure never terminates
/// the loop: it is always retried.
pub proof fn lemma_shutdown_terminates(r: Result<FrameData, EncoderError>)
    ensures
        (r matches Ok(f) && f.shutdown) ==> loop_step_spec(r) is Shutdown,
        !(loop_step_spec(r) is Encode && loop_step_spec(r)->Encode_0.shutdown),
        (r matches Err(e)) ==> loop_step_spec(r) is Retry,
{
}

} // verus!
