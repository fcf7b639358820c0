//! Stream pump: the per-frame orchestration of the pipeline, kept as
//! pure decision logic.
//!
//! The blocking device calls and the inference call happen outside this
//! crate; what stands here is everything they decide between: the phase
//! machine that orders capture, inference, output acquisition and the
//! frame write (and turns any queue or inference failure into a fatal
//! stop before the frame is written), the renderer that takes one
//! inference result to the padded output buffer, and the time-based
//! frame-rate counter. The reporting cadence is the elapsed-time policy:
//! a report is due once a full second has passed since the last one.

use crate::compositor::{composite, spec_composite};
use crate::tensor::{spec_planar_to_interleaved, to_yuyv_vec, FrameTensor};
use vstd::prelude::*;

verus! {

/// Phase of the streaming state machine.
#[derive(Clone, Copy, Debug, PartialEq, Eq, Structural)]
pub enum PumpPhase {
    /// Formats negotiated, buffers allocated, nothing captured yet.
    Idle,
    /// Blocking on the capture queue for the one background frame.
    CapturingBackground,
    /// Blocking on the capture queue for the next frame of the loop.
    AwaitCapture,
    /// Frame decoded and adapted; waiting on the inference result.
    AwaitInference,
    /// Frame rendered; blocking on the output queue for a free buffer.
    AwaitOutput,
    /// A queue or inference failure was seen; the pipeline is dead.
    Fatal,
}

/// Event handed to the pump by the surrounding loop.
#[derive(Clone, Copy, Debug, PartialEq, Eq, Structural)]
pub enum PumpEvent {
    /// Startup is complete; begin capturing the background.
    Started,
    /// The capture queue delivered a filled buffer.
    FrameCaptured,
    /// The capture queue failed.
    CaptureFailed,
    /// The inference call returned a well-formed matte and foreground.
    InferenceDone,
    /// The inference call failed or returned a malformed result.
    InferenceFailed,
    /// The output queue delivered a free buffer.
    OutputAcquired,
    /// The output queue failed.
    OutputFailed,
}

/// What the surrounding loop must do next.
#[derive(Clone, Copy, Debug, PartialEq, Eq, Structural)]
pub enum PumpAction {
    /// Block on the capture queue for the background frame.
    CaptureBackground,
    /// Store the decoded background tensor, then block for the next frame.
    StoreBackground,
    /// Decode the captured frame and invoke inference on it.
    RunInference,
    /// Render the frame and block on the output queue for a free buffer.
    AcquireOutput,
    /// Copy the rendered bytes into the output buffer and release it.
    WriteFrame,
    /// Stop the process with a diagnostic; the pipeline has no retry.
    Terminate,
}

/// The transition table of the pump: next phase and required action for
/// a phase and the event observed in it. Every failure event, and every
/// event that its phase does not expect, is fatal; the `Fatal` phase
/// absorbs everything.
pub open spec fn spec_step(phase: PumpPhase, event: PumpEvent) -> (PumpPhase, PumpAction) {
    match (phase, event) {
        (PumpPhase::Idle, PumpEvent::Started) => (
            PumpPhase::CapturingBackground,
            PumpAction::CaptureBackground,
        ),
        (PumpPhase::CapturingBackground, PumpEvent::FrameCaptured) => (
            PumpPhase::AwaitCapture,
            PumpAction::StoreBackground,
        ),
        (PumpPhase::AwaitCapture, PumpEvent::FrameCaptured) => (
            PumpPhase::AwaitInference,
            PumpAction::RunInference,
        ),
        (PumpPhase::AwaitInference, PumpEvent::InferenceDone) => (
            PumpPhase::AwaitOutput,
            PumpAction::AcquireOutput,
        ),
        (PumpPhase::AwaitOutput, PumpEvent::OutputAcquired) => (
            PumpPhase::AwaitCapture,
            PumpAction::WriteFrame,
        ),
        _ => (PumpPhase::Fatal, PumpAction::Terminate),
    }
}

/// Advance the pump by one observed event.
pub fn step(phase: PumpPhase, event: PumpEvent) -> (r: (PumpPhase, PumpAction))
    ensures
        r == spec_step(phase, event),
{
    match (phase, event) {
        (PumpPhase::Idle, PumpEvent::Started) => (
            PumpPhase::CapturingBackground,
            PumpAction::CaptureBackground,
        ),
        (PumpPhase::CapturingBackground, PumpEvent::FrameCaptured) => (
            PumpPhase::AwaitCapture,
            PumpAction::StoreBackground,
        ),
        (PumpPhase::AwaitCapture, PumpEvent::FrameCaptured) => (
            PumpPhase::AwaitInference,
            PumpAction::RunInference,
        ),
        (PumpPhase::AwaitInference, PumpEvent::InferenceDone) => (
            PumpPhase::AwaitOutput,
            PumpAction::AcquireOutput,
        ),
        (PumpPhase::AwaitOutput, PumpEvent::OutputAcquired) => (
            PumpPhase::AwaitCapture,
            PumpAction::WriteFrame,
        ),
        _ => (PumpPhase::Fatal, PumpAction::Terminate),
    }
}

/// Whether running the pump from `phase` through `events` ever demands a
/// frame write.
pub open spec fn spec_run_writes(phase: PumpPhase, events: Seq<PumpEvent>) -> bool
    decreases events.len(),
{
    if events.len() == 0 {
        false
    } else {
        let next = spec_step(phase, events[0]);
        next.1 == PumpAction::WriteFrame || spec_run_writes(next.0, events.drop_first())
    }
}

/// Law: a capture failure is fatal before any write. From every phase the
/// failure leads to `Fatal` with no frame written, and from `Fatal` no
/// sequence of later events ever demands a frame write.
pub proof fn lemma_capture_failure_stops_writes(phase: PumpPhase, events: Seq<PumpEvent>)
    ensures
        spec_step(phase, PumpEvent::CaptureFailed).0 == PumpPhase::Fatal,
        spec_step(phase, PumpEvent::CaptureFailed).1 != PumpAction::WriteFrame,
        !spec_run_writes(PumpPhase::Fatal, events),
    decreases events.len(),
{
    if events.len() > 0 {
        lemma_capture_failure_stops_writes(PumpPhase::Fatal, events.drop_first());
    }
}

/// The interlace flag written into every released output buffer: frames
/// are progressive, never field-split.
pub const FIELD_PROGRESSIVE: u32 = 0;

/// Rolling frame-rate counter with the elapsed-time reporting policy.
pub struct FpsCounter {
    /// Frames processed since the last report.
    pub frames: u64,
}

impl FpsCounter {
    /// A fresh counter with no frames recorded.
    pub fn new() -> (c: Self)
        ensures
            c.frames == 0,
    {
        FpsCounter { frames: 0 }
    }

    /// Count one processed frame, given the nanoseconds elapsed since the
    /// last report. Once a full second has passed, the count including
    /// this frame is returned for reporting and the counter resets;
    /// otherwise the frame is only accumulated.
    pub fn record_frame(&mut self, elapsed_nanos: u64) -> (report: Option<u64>)
        requires
            old(self).frames < u64::MAX,
        ensures
            elapsed_nanos >= 1_000_000_000 ==> report == Some((old(self).frames + 1) as u64)
                && final(self).frames == 0,
            elapsed_nanos < 1_000_000_000 ==> report is None && final(self).frames == old(
                self,
            ).frames + 1,
    {
        self.frames = self.frames + 1;
        if elapsed_nanos >= 1_000_000_000 {
            let n = self.frames;
            self.frames = 0;
            Some(n)
        } else {
            None
        }
    }
}

/// Fit an encoded frame into an output buffer of fixed capacity: the
/// encoded bytes are copied in order, truncated if they exceed the
/// capacity, and the remainder is padded with zero bytes.
pub fn fill_output_buffer(encoded: &[u8], capacity: usize) -> (out: Vec<u8>)
    ensures
        out@.len() == capacity,
        forall|i: int| 0 <= i < capacity && i < encoded@.len() ==> out@[i] == encoded@[i],
        forall|i: int| encoded@.len() <= i < capacity ==> out@[i] == 0,
{
    let mut out: Vec<u8> = Vec::new();
    let mut i: usize = 0;
    while i < capacity
        invariant
            i <= capacity,
            out@.len() == i,
            forall|j: int| 0 <= j < i && j < encoded@.len() ==> out@[j] == encoded@[j],
            forall|j: int| encoded@.len() <= j < i ==> out@[j] == 0,
        decreases capacity - i,
    {
        if i < encoded.len() {
            out.push(encoded[i]);
        } else {
            out.push(0);
        }
        i = i + 1;
    }
    out
}

/// Render one frame from the inference result: composite the foreground
/// over the backdrop under the matte, reorder to interleaved RGB, encode
/// to YUYV, and fit the bytes to the output buffer's capacity.
pub fn render_frame(alpha: &FrameTensor, fg: &FrameTensor, capacity: usize) -> (out: Vec<u8>)
    requires
        alpha.wf(),
        alpha.channels == 1,
        fg.wf(),
        fg.channels == 3,
        alpha.width == fg.width,
        alpha.height == fg.height,
    ensures
        out@.len() == capacity,
        ({
            let whi = fg.width as int * fg.height as int;
            let yuyv = crate::codec::spec_rgb_to_yuyv(
                spec_planar_to_interleaved(spec_composite(alpha.data@, fg.data@, whi), whi),
            );
            &&& forall|i: int| 0 <= i < capacity && i < yuyv.len() ==> out@[i] == yuyv[i]
            &&& forall|i: int| yuyv.len() <= i < capacity ==> out@[i] == 0
        }),
{
    let blended = composite(alpha, fg);
    let yuyv = to_yuyv_vec(&blended, fg.width, fg.height);
    fill_output_buffer(yuyv.as_slice(), capacity)
}

} // verus!
