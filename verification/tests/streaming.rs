use bgm::background::BackgroundRef;
use bgm::compositor::composite;
use bgm::pump::{
    fill_output_buffer, render_frame, step, FpsCounter, PumpAction, PumpEvent, PumpPhase,
    FIELD_PROGRESSIVE,
};
use bgm::tensor::FrameTensor;

#[test]
fn pump_happy_path_orders_the_frame_cycle() {
    let (s, a) = step(PumpPhase::Idle, PumpEvent::Started);
    assert_eq!((s, a), (PumpPhase::CapturingBackground, PumpAction::CaptureBackground));
    let (s, a) = step(s, PumpEvent::FrameCaptured);
    assert_eq!((s, a), (PumpPhase::AwaitCapture, PumpAction::StoreBackground));
    let (s, a) = step(s, PumpEvent::FrameCaptured);
    assert_eq!((s, a), (PumpPhase::AwaitInference, PumpAction::RunInference));
    let (s, a) = step(s, PumpEvent::InferenceDone);
    assert_eq!((s, a), (PumpPhase::AwaitOutput, PumpAction::AcquireOutput));
    let (s, a) = step(s, PumpEvent::OutputAcquired);
    assert_eq!((s, a), (PumpPhase::AwaitCapture, PumpAction::WriteFrame));
}

#[test]
fn capture_failure_terminates_before_any_write() {
    // A capture-queue failure on frame N: the pump goes fatal at once,
    // and no later event can ever demand the frame's output write.
    let (s, a) = step(PumpPhase::AwaitCapture, PumpEvent::CaptureFailed);
    assert_eq!(s, PumpPhase::Fatal);
    assert_eq!(a, PumpAction::Terminate);
    let later = [
        PumpEvent::FrameCaptured,
        PumpEvent::InferenceDone,
        PumpEvent::OutputAcquired,
        PumpEvent::Started,
        PumpEvent::OutputFailed,
    ];
    let mut phase = s;
    for e in later {
        let (next, action) = step(phase, e);
        assert_eq!(next, PumpPhase::Fatal);
        assert_ne!(action, PumpAction::WriteFrame);
        phase = next;
    }
}

#[test]
fn inference_and_output_failures_are_fatal() {
    let (s, a) = step(PumpPhase::AwaitInference, PumpEvent::InferenceFailed);
    assert_eq!((s, a), (PumpPhase::Fatal, PumpAction::Terminate));
    let (s, a) = step(PumpPhase::AwaitOutput, PumpEvent::OutputFailed);
    assert_eq!((s, a), (PumpPhase::Fatal, PumpAction::Terminate));
    let (s, a) = step(PumpPhase::CapturingBackground, PumpEvent::CaptureFailed);
    assert_eq!((s, a), (PumpPhase::Fatal, PumpAction::Terminate));
}

#[test]
fn unexpected_events_are_fatal() {
    let (s, a) = step(PumpPhase::AwaitCapture, PumpEvent::OutputAcquired);
    assert_eq!((s, a), (PumpPhase::Fatal, PumpAction::Terminate));
    let (s, a) = step(PumpPhase::Idle, PumpEvent::InferenceDone);
    assert_eq!((s, a), (PumpPhase::Fatal, PumpAction::Terminate));
}

#[test]
fn fps_counter_reports_once_a_second_elapses() {
    let mut c = FpsCounter::new();
    assert_eq!(c.frames, 0);
    assert_eq!(c.record_frame(500_000_000), None);
    assert_eq!(c.frames, 1);
    assert_eq!(c.record_frame(999_999_999), None);
    assert_eq!(c.frames, 2);
    assert_eq!(c.record_frame(1_000_000_000), Some(3));
    assert_eq!(c.frames, 0);
    assert_eq!(c.record_frame(2_000_000_000), Some(1));
    assert_eq!(c.frames, 0);
}

#[test]
fn output_buffer_is_padded_with_zeros() {
    let out = fill_output_buffer(&[1, 2, 3], 6);
    assert_eq!(out, vec![1, 2, 3, 0, 0, 0]);
}

#[test]
fn output_buffer_truncates_deterministically() {
    let out = fill_output_buffer(&[1, 2, 3, 4, 5], 2);
    assert_eq!(out, vec![1, 2]);
    assert_eq!(fill_output_buffer(&[], 0), Vec::<u8>::new());
}

#[test]
fn released_buffers_are_marked_progressive() {
    assert_eq!(FIELD_PROGRESSIVE, 0);
}

#[test]
fn render_frame_encodes_the_composite() {
    // Opaque alpha over a 2x1 foreground: the composite is the foreground
    // itself, whose encoding is [92, 103, 187, 147] as in the codec tests.
    let fg = FrameTensor {
        data: vec![120, 230, 83, 193, 40, 150],
        channels: 3,
        width: 2,
        height: 1,
    };
    let alpha = FrameTensor { data: vec![255, 255], channels: 1, width: 2, height: 1 };
    assert_eq!(render_frame(&alpha, &fg, 4), vec![92, 103, 187, 147]);
    // A larger output buffer is zero-padded, a smaller one truncated.
    assert_eq!(render_frame(&alpha, &fg, 6), vec![92, 103, 187, 147, 0, 0]);
    assert_eq!(render_frame(&alpha, &fg, 3), vec![92, 103, 187]);
}

#[test]
fn background_reference_stays_identical_across_iterations() {
    let reference = FrameTensor {
        data: vec![120, 230, 83, 193, 40, 150],
        channels: 3,
        width: 2,
        height: 1,
    };
    let snapshot = reference.data.clone();
    let mut holder = BackgroundRef::new();
    holder.set(reference);
    let alpha = FrameTensor { data: vec![200, 55], channels: 1, width: 2, height: 1 };
    for _ in 0..1000 {
        // One frame iteration against the shared reference: composite a
        // frame with the reference as foreground stand-in, then re-read.
        let background = holder.get();
        let out = composite(&alpha, background);
        assert_eq!(out.channels, 3);
        assert_eq!(holder.get().data, snapshot);
    }
}
