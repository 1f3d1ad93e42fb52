//! Pipeline lifecycle: the decisions that the capture pipeline takes at each
//! step, as functions from its state and what it observed to its next state
//! and what to do next.

use vstd::prelude::*;
use crate::error::NitrogenError;
use crate::formats::StreamPixelFormat;

verus! {

/// Pipeline state
#[derive(Debug, Clone, Copy, PartialEq, Eq, Structural)]
pub enum PipelineState {
    /// Pipeline created but not started
    Idle,
    /// Waiting for user to select source via portal
    SelectingSource,
    /// Capture active, waiting for stream to start
    WaitingForStream,
    /// Capture active, processing frames
    Running,
    /// Pipeline stopping
    Stopping,
    /// Pipeline stopped
    Stopped,
    /// Error state
    Error,
}

/// Whether a pipeline in this state counts as running.
pub open spec fn running_state(s: PipelineState) -> bool {
    s == PipelineState::Running || s == PipelineState::WaitingForStream
}

/// Check if a pipeline in the given state is running
pub fn is_running(state: PipelineState) -> (r: bool)
    ensures
        r == running_state(state),
{
    match state {
        PipelineState::Running | PipelineState::WaitingForStream => true,
        _ => false,
    }
}

/// Start a pipeline: only an idle pipeline starts (it then waits for the user
/// to select a source); any other is already running.
pub fn start_transition(state: PipelineState) -> (r: Result<PipelineState, NitrogenError>)
    ensures
        state == PipelineState::Idle <==> r is Ok,
        r is Ok ==> r == Ok::<PipelineState, NitrogenError>(PipelineState::SelectingSource),
        state != PipelineState::Idle ==> r matches Err(NitrogenError::SessionAlreadyRunning),
{
    if state != PipelineState::Idle {
        return Err(NitrogenError::SessionAlreadyRunning);
    }
    Ok(PipelineState::SelectingSource)
}

/// The state once the capture session, stream and camera are set up.
pub fn session_ready_transition(state: PipelineState) -> (r: PipelineState)
    requires
        state == PipelineState::SelectingSource,
    ensures
        r == PipelineState::WaitingForStream,
{
    PipelineState::WaitingForStream
}

/// What a processing step does after its decision.
#[derive(Debug, Clone, Copy, PartialEq, Eq, Structural)]
pub enum ProcessStep {
    /// Return at once with the given value (false: the pipeline should stop)
    Finish(bool),
    /// Sleep the given number of milliseconds, then return true
    Wait(u64),
    /// Receive the next frame, subscribing again first when asked
    Receive { resubscribe: bool },
}

/// The next state and step of a processing step, given whether a capture
/// stream exists and is running (`capture`) and whether a frame receiver exists.
pub open spec fn process_decision(
    state: PipelineState,
    capture: Option<bool>,
    has_receiver: bool,
) -> (PipelineState, ProcessStep) {
    match state {
        PipelineState::Stopped | PipelineState::Error | PipelineState::Idle
        | PipelineState::Stopping => (state, ProcessStep::Finish(false)),
        PipelineState::SelectingSource => (state, ProcessStep::Wait(100)),
        PipelineState::WaitingForStream => match capture {
            Some(true) => running_decision(PipelineState::Running, capture, has_receiver),
            Some(false) => (state, ProcessStep::Wait(50)),
            None => (state, ProcessStep::Finish(false)),
        },
        PipelineState::Running => running_decision(state, capture, has_receiver),
    }
}

/// The decision of a processing step of a running pipeline.
pub open spec fn running_decision(
    state: PipelineState,
    capture: Option<bool>,
    has_receiver: bool,
) -> (PipelineState, ProcessStep) {
    if !has_receiver && capture is None {
        (state, ProcessStep::Finish(false))
    } else if capture == Some(false) {
        (PipelineState::Error, ProcessStep::Finish(false))
    } else {
        (state, ProcessStep::Receive { resubscribe: !has_receiver })
    }
}

/// Decide a processing step.
pub fn process_step(state: PipelineState, capture: Option<bool>, has_receiver: bool) -> (r: (
    PipelineState,
    ProcessStep,
))
    ensures
        r == process_decision(state, capture, has_receiver),
{
    let s = match state {
        PipelineState::Stopped | PipelineState::Error | PipelineState::Idle
        | PipelineState::Stopping => {
            return (state, ProcessStep::Finish(false));
        },
        PipelineState::SelectingSource => {
            return (state, ProcessStep::Wait(100));
        },
        PipelineState::WaitingForStream => match capture {
            Some(true) => PipelineState::Running,
            Some(false) => {
                return (state, ProcessStep::Wait(50));
            },
            None => {
                return (state, ProcessStep::Finish(false));
            },
        },
        PipelineState::Running => PipelineState::Running,
    };
    if !has_receiver && capture.is_none() {
        return (s, ProcessStep::Finish(false));
    }
    if capture == Some(false) {
        return (PipelineState::Error, ProcessStep::Finish(false));
    }
    (s, ProcessStep::Receive { resubscribe: !has_receiver })
}

/// What receiving a frame gave.
#[derive(Debug, Clone, Copy, PartialEq, Eq, Structural)]
pub enum RecvOutcome {
    /// A frame arrived
    Frame,
    /// The receiver lagged behind and the given number of frames were lost
    Lagged(u64),
    /// The capture stream closed
    Closed,
    /// No frame arrived in time
    TimedOut,
}

/// What to do with a receive outcome: the next state, whether processing
/// continues, and how many frames count as dropped.
pub fn receive_transition(state: PipelineState, outcome: RecvOutcome) -> (r: (
    PipelineState,
    bool,
    u64,
))
    ensures
        r == match outcome {
            RecvOutcome::Frame => (state, true, 0u64),
            RecvOutcome::Lagged(n) => (state, true, n),
            RecvOutcome::Closed => (PipelineState::Stopped, false, 0u64),
            RecvOutcome::TimedOut => (state, true, 0u64),
        },
{
    match outcome {
        RecvOutcome::Frame => (state, true, 0),
        RecvOutcome::Lagged(n) => (state, true, n),
        RecvOutcome::Closed => (PipelineState::Stopped, false, 0),
        RecvOutcome::TimedOut => (state, true, 0),
    }
}

/// Stopping a pipeline: `None` when it is already stopped (nothing to do),
/// else the state while it shuts down and the state afterwards.
pub fn stop_transition(state: PipelineState) -> (r: Option<(PipelineState, PipelineState)>)
    ensures
        state == PipelineState::Stopped <==> r is None,
        r is Some ==> r == Some((PipelineState::Stopping, PipelineState::Stopped)),
{
    if state == PipelineState::Stopped {
        return None;
    }
    Some((PipelineState::Stopping, PipelineState::Stopped))
}

/// Whatever state a pipeline is in, stopping it leaves it stopped, and it is
/// not running afterwards.
pub proof fn lemma_stop_ends_stopped(state: PipelineState)
    ensures
        ({
            let after = if state == PipelineState::Stopped {
                state
            } else {
                PipelineState::Stopped
            };
            after == PipelineState::Stopped && !running_state(after)
        }),
{
}

/// A pipeline that is stopped, stopping, failed or idle never processes a
/// frame: its processing step finishes at once with false and keeps its state.
pub proof fn lemma_inactive_states_finish(
    state: PipelineState,
    capture: Option<bool>,
    has_receiver: bool,
)
    requires
        !running_state(state),
        state != PipelineState::SelectingSource,
    ensures
        process_decision(state, capture, has_receiver) == (state, ProcessStep::Finish(false)),
{
}

/// A processing step only reaches a state from which the pipeline is running
/// if it started from one in which it was running, or from source selection
/// (which never changes state by itself).
pub proof fn lemma_process_never_starts(
    state: PipelineState,
    capture: Option<bool>,
    has_receiver: bool,
)
    ensures
        running_state(process_decision(state, capture, has_receiver).0) ==> running_state(state),
{
}


/// The stream format that the pipeline sends frames of a given fourcc as:
/// XR24, XB24, AR24 and AB24 go out as BGRA, BA24 and RA24 as RGBA, NV12 as
/// NV12, and anything else as BGRA.
pub fn fourcc_to_gs_format(fourcc: u32) -> (r: StreamPixelFormat)
    ensures
        r == (if fourcc == 0x34324241 || fourcc == 0x34324152 {
            StreamPixelFormat::Rgba
        } else if fourcc == 0x3231564E {
            StreamPixelFormat::Nv12
        } else {
            StreamPixelFormat::Bgra
        }),
{
    if fourcc == 0x34325258 || fourcc == 0x34324258 || fourcc == 0x34325241 || fourcc
        == 0x34324142 {
        StreamPixelFormat::Bgra
    } else if fourcc == 0x34324241 || fourcc == 0x34324152 {
        StreamPixelFormat::Rgba
    } else if fourcc == 0x3231564E {
        StreamPixelFormat::Nv12
    } else {
        StreamPixelFormat::Bgra
    }
}

} // verus!
