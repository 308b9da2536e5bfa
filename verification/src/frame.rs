//! The frame driver.
//!
//! Each frame walks the phases Idle, Acquiring, Encoding, Submitted,
//! Presented and back to Idle. The host performs the GPU action that
//! each transition asks for — acquire the surface image, encode and
//! submit the pass, present — and feeds the outcome back as the next
//! event. Acquisition failures are classified: a stale or lost surface
//! heals itself through a forced reconfigure, a timeout skips the
//! frame, and only resource exhaustion is fatal to the host loop.
//!
//! `plan_frame` fixes the per-frame submission: the packed batch bytes
//! and a single draw call spanning six vertices per rectangle.

use vstd::prelude::*;

use crate::record::{batch_bytes, encode_batch, DrawRecord, RECORD_BYTES};
use crate::{RendererError, BATCH_CAPACITY};

verus! {

/// Why acquiring the presentable surface image failed.
#[derive(Clone, Copy, Debug, PartialEq, Eq, Structural)]
pub enum SurfaceErrorKind {
    /// The surface was lost and must be rebuilt.
    Lost,
    /// The surface no longer matches the window and must be rebuilt.
    Outdated,
    /// The device is out of memory.
    OutOfMemory,
    /// Presentation took too long.
    Timeout,
}

/// How the driver reacts to an acquisition failure.
#[derive(Clone, Copy, Debug, PartialEq, Eq, Structural)]
pub enum Severity {
    /// Auto-healed by a forced reconfigure at the current size.
    Recoverable,
    /// Propagated to the host, which terminates its loop.
    Fatal,
    /// The frame is skipped; no state is disturbed.
    Transient,
}

/// The classification of each acquisition failure.
pub open spec fn classify_spec(e: SurfaceErrorKind) -> Severity {
    match e {
        SurfaceErrorKind::Lost => Severity::Recoverable,
        SurfaceErrorKind::Outdated => Severity::Recoverable,
        SurfaceErrorKind::OutOfMemory => Severity::Fatal,
        SurfaceErrorKind::Timeout => Severity::Transient,
    }
}

/// Classifies an acquisition failure.
pub fn classify_surface_error(e: SurfaceErrorKind) -> (r: Severity)
    ensures
        r == classify_spec(e),
{
    match e {
        SurfaceErrorKind::Lost => Severity::Recoverable,
        SurfaceErrorKind::Outdated => Severity::Recoverable,
        SurfaceErrorKind::OutOfMemory => Severity::Fatal,
        SurfaceErrorKind::Timeout => Severity::Transient,
    }
}

/// Where the frame driver stands within one frame.
#[derive(Clone, Copy, Debug, PartialEq, Eq, Structural)]
pub enum FramePhase {
    Idle,
    Acquiring,
    Encoding,
    Submitted,
    Presented,
}

/// What the host reports back to the driver.
#[derive(Clone, Copy, Debug, PartialEq, Eq, Structural)]
pub enum FrameEvent {
    /// The window asked for a redraw.
    RedrawRequested,
    /// A presentable surface image was acquired.
    Acquired,
    /// Acquisition failed.
    AcquireFailed(SurfaceErrorKind),
    /// The render pass was recorded.
    EncodingDone,
    /// The recorded commands were submitted to the queue.
    SubmitDone,
    /// The acquired image was handed to the presentation engine.
    PresentDone,
}

/// What the driver asks the host to do next.
#[derive(Clone, Copy, Debug, PartialEq, Eq, Structural)]
pub enum FrameAction {
    /// Request the next presentable surface image.
    Acquire,
    /// Upload the batch and record the render pass.
    Encode,
    /// Submit the recorded commands.
    Submit,
    /// Present the acquired image.
    Present,
    /// Reconfigure the surface at the current size, then retry next frame.
    Reconfigure,
    /// Terminate the host loop.
    Exit,
    /// Skip this frame and carry on.
    SkipFrame,
    /// Nothing; the event does not apply to the phase.
    Wait,
}

/// The frame driver's transition table. Unexpected events leave the
/// phase unchanged and ask for nothing.
pub open spec fn step_spec(phase: FramePhase, event: FrameEvent) -> (FramePhase, FrameAction) {
    match (phase, event) {
        (FramePhase::Idle, FrameEvent::RedrawRequested) => (
            FramePhase::Acquiring,
            FrameAction::Acquire,
        ),
        (FramePhase::Acquiring, FrameEvent::Acquired) => (FramePhase::Encoding, FrameAction::Encode),
        (FramePhase::Acquiring, FrameEvent::AcquireFailed(e)) => (
            FramePhase::Idle,
            match classify_spec(e) {
                Severity::Recoverable => FrameAction::Reconfigure,
                Severity::Fatal => FrameAction::Exit,
                Severity::Transient => FrameAction::SkipFrame,
            },
        ),
        (FramePhase::Encoding, FrameEvent::EncodingDone) => (
            FramePhase::Submitted,
            FrameAction::Submit,
        ),
        (FramePhase::Submitted, FrameEvent::SubmitDone) => (
            FramePhase::Presented,
            FrameAction::Present,
        ),
        (FramePhase::Presented, FrameEvent::PresentDone) => (FramePhase::Idle, FrameAction::Wait),
        (p, _) => (p, FrameAction::Wait),
    }
}

/// Advances the frame driver by one event.
pub fn step(phase: FramePhase, event: FrameEvent) -> (r: (FramePhase, FrameAction))
    ensures
        r == step_spec(phase, event),
{
    match (phase, event) {
        (FramePhase::Idle, FrameEvent::RedrawRequested) => (
            FramePhase::Acquiring,
            FrameAction::Acquire,
        ),
        (FramePhase::Acquiring, FrameEvent::Acquired) => (FramePhase::Encoding, FrameAction::Encode),
        (FramePhase::Acquiring, FrameEvent::AcquireFailed(e)) => {
            let action = match classify_surface_error(e) {
                Severity::Recoverable => FrameAction::Reconfigure,
                Severity::Fatal => FrameAction::Exit,
                Severity::Transient => FrameAction::SkipFrame,
            };
            (FramePhase::Idle, action)
        },
        (FramePhase::Encoding, FrameEvent::EncodingDone) => (
            FramePhase::Submitted,
            FrameAction::Submit,
        ),
        (FramePhase::Submitted, FrameEvent::SubmitDone) => (
            FramePhase::Presented,
            FrameAction::Present,
        ),
        (FramePhase::Presented, FrameEvent::PresentDone) => (FramePhase::Idle, FrameAction::Wait),
        (p, _) => (p, FrameAction::Wait),
    }
}

/// Every acquisition failure returns the driver to Idle — the loop can
/// always try again on the next frame, whatever went wrong — and the
/// requested action follows the failure's classification.
pub proof fn lemma_acquire_failure_recovers(e: SurfaceErrorKind)
    ensures
        step_spec(FramePhase::Acquiring, FrameEvent::AcquireFailed(e)).0 == FramePhase::Idle,
        classify_spec(e) == Severity::Recoverable ==> step_spec(
            FramePhase::Acquiring,
            FrameEvent::AcquireFailed(e),
        ).1 == FrameAction::Reconfigure,
        classify_spec(e) == Severity::Fatal ==> step_spec(
            FramePhase::Acquiring,
            FrameEvent::AcquireFailed(e),
        ).1 == FrameAction::Exit,
        classify_spec(e) == Severity::Transient ==> step_spec(
            FramePhase::Acquiring,
            FrameEvent::AcquireFailed(e),
        ).1 == FrameAction::SkipFrame,
{
}

/// One frame's submission: the bytes to upload to the batch buffer and
/// the single instanced draw call that covers every rectangle.
pub struct FramePlan {
    /// Packed contents for the GPU storage buffer, offset zero.
    pub buffer_bytes: Vec<u8>,
    /// Vertices of the one draw call: six per rectangle.
    pub vertex_count: u32,
    /// Instance groups of the one draw call.
    pub instance_count: u32,
}

/// Plans one frame for a batch of `n` records: exactly `6 * n` vertices
/// in one draw call over one instance group, with the whole batch
/// packed at offset zero. A batch beyond the buffer's capacity is
/// rejected whole — nothing is uploaded and no draw is planned.
pub fn plan_frame(batch: &Vec<DrawRecord>) -> (r: Result<FramePlan, RendererError>)
    ensures
        r is Ok <==> batch@.len() <= BATCH_CAPACITY,
        r matches Ok(plan) ==> {
            &&& plan.vertex_count == 6 * batch@.len()
            &&& plan.instance_count == 1
            &&& plan.buffer_bytes@ == batch_bytes(batch@)
            &&& plan.buffer_bytes@.len() == RECORD_BYTES * batch@.len()
        },
        r is Err ==> r == Err::<FramePlan, RendererError>(RendererError::CapacityExceeded),
{
    let bytes = match encode_batch(batch) {
        Ok(bytes) => bytes,
        Err(e) => {
            return Err(e);
        },
    };
    let vertex_count: u32 = 6 * (batch.len() as u32);
    Ok(FramePlan { buffer_bytes: bytes, vertex_count, instance_count: 1 })
}

} // verus!
