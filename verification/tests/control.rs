//! Tests of the main loop's control decisions: clean shutdown, ordinary
//! encoding, and self-healing on receive failures.

use encoder_arm64::ipc::{EncoderError, FrameData, PixelFormat};
use encoder_arm64::mainloop::{next_step, retry_backoff_millis, LoopStep};

fn frame(shutdown: bool) -> FrameData {
    FrameData {
        width: 1280,
        height: 720,
        timestamp_ns: 99,
        insert_idr: false,
        pixel_format: PixelFormat::Rgba,
        row_pitch: 5120,
        data: vec![1, 2],
        shutdown,
    }
}

#[test]
fn shutdown_frame_terminates_without_encode() {
    let step = next_step(Ok(frame(true)));
    assert!(matches!(step, LoopStep::Shutdown));
}

#[test]
fn ordinary_frame_is_encoded() {
    let step = next_step(Ok(frame(false)));
    match step {
        LoopStep::Encode(f) => {
            assert_eq!(f.timestamp_ns, 99);
            assert_eq!(f.data, vec![1, 2]);
        }
        other => panic!("expected an encode step, got {:?}", other),
    }
}

#[test]
fn receive_failure_is_retried() {
    let step = next_step(Err(EncoderError::WaitFailure));
    assert!(matches!(step, LoopStep::Retry));
    let step = next_step(Err(EncoderError::ProtocolViolation));
    assert!(matches!(step, LoopStep::Retry));
    assert_eq!(retry_backoff_millis(), 10);
}
