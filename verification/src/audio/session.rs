//! The decisions of the backend's polling loops: what one turn of the main
//! loop, and the state it finds afterwards, mean for the loop that waits.

use vstd::prelude::*;

use crate::error::{AirapError, AirapErrorKind};

verus! {

/// How one turn of the backend's main loop ended.
#[derive(Debug)]
pub enum Iteration {
    /// It ran, and dispatched this many sources.
    Success(u32),
    /// The main loop was asked to quit, with this value.
    Quit(i32),
    /// It failed; the text is the backend's account of the error.
    Failed(String),
}

/// The state of an operation that the backend carries out.
#[derive(Debug, Clone, Copy, PartialEq, Eq, Structural)]
pub enum OperationState {
    Running,
    Done,
    Cancelled,
}

/// The state of the connection to the audio server.
#[derive(Debug, Clone, Copy, PartialEq, Eq, Structural)]
pub enum ContextState {
    Unconnected,
    Connecting,
    Authorizing,
    SettingName,
    Ready,
    Failed,
    Terminated,
}

/// The state of a stream.
#[derive(Debug, Clone, Copy, PartialEq, Eq, Structural)]
pub enum StreamState {
    Unconnected,
    Creating,
    Ready,
    Failed,
    Terminated,
}

/// Whether what a loop waits for has come.
#[derive(Debug, Clone, Copy, PartialEq, Eq, Structural)]
pub enum Progress {
    /// It has: leave the loop.
    Ready,
    /// Not yet: turn the main loop once more.
    Pending,
}

/// The buffer sizes asked of the server for a recording stream, in bytes.
#[derive(Debug, Clone, Copy, PartialEq, Eq, Structural)]
pub struct BufferPlan {
    pub maxlength: u32,
    pub tlength: u32,
    pub prebuf: u32,
    pub minreq: u32,
    pub fragsize: u32,
}

/// Whether `error` is an error of the capture with the message `text`.
pub open spec fn is_audio_error(error: AirapError, text: Seq<char>) -> bool {
    error.kind == AirapErrorKind::Audio && error.message@ == text
}

/// What one turn of the main loop means for the loop that made it: go on
/// after a success; an error of the backend is an I/O error that carries the
/// backend's text, and a main loop that quits ends the operation.
pub fn check_iteration(outcome: Iteration) -> (r: Result<(), AirapError>)
    ensures
        match outcome {
            Iteration::Success(_) => r is Ok,
            Iteration::Quit(_) => r matches Err(error) && is_audio_error(
                error,
                "Operation failed: mainloop quiting"@,
            ),
            Iteration::Failed(text) => r matches Err(error) && error.kind == AirapErrorKind::Io
                && error.message@ == "Pulseaudio Error: "@ + text@,
        },
{
    match outcome {
        Iteration::Success(_) => Ok(()),
        Iteration::Quit(_) => Err(
            AirapError::with_text("Operation failed: mainloop quiting", AirapErrorKind::Audio),
        ),
        Iteration::Failed(text) => Err(AirapError::backend(text.as_str())),
    }
}

/// Whether the wait for an operation is over: it is when the operation is
/// done, and it fails when the operation was cancelled.
pub fn operation_progress(state: OperationState) -> (r: Result<Progress, AirapError>)
    ensures
        match state {
            OperationState::Done => r == Ok::<Progress, AirapError>(Progress::Ready),
            OperationState::Running => r == Ok::<Progress, AirapError>(Progress::Pending),
            OperationState::Cancelled => r matches Err(error) && is_audio_error(
                error,
                "Operation cancelled"@,
            ),
        },
{
    match state {
        OperationState::Done => Ok(Progress::Ready),
        OperationState::Running => Ok(Progress::Pending),
        OperationState::Cancelled => Err(
            AirapError::with_text("Operation cancelled", AirapErrorKind::Audio),
        ),
    }
}

/// Whether the wait for the connection is over: it is when the context is
/// ready, and it fails when the context has failed or was terminated.
pub fn context_progress(state: ContextState) -> (r: Result<Progress, AirapError>)
    ensures
        match state {
            ContextState::Ready => r == Ok::<Progress, AirapError>(Progress::Ready),
            ContextState::Failed | ContextState::Terminated => r matches Err(error)
                && is_audio_error(error, "context failed"@),
            _ => r == Ok::<Progress, AirapError>(Progress::Pending),
        },
{
    match state {
        ContextState::Ready => Ok(Progress::Ready),
        ContextState::Failed | ContextState::Terminated => Err(
            AirapError::with_text("context failed", AirapErrorKind::Audio),
        ),
        _ => Ok(Progress::Pending),
    }
}

/// Whether the wait for the stream is over: it is when the stream is ready,
/// and it fails when the stream has failed or was terminated.
pub fn stream_progress(state: StreamState) -> (r: Result<Progress, AirapError>)
    ensures
        match state {
            StreamState::Ready => r == Ok::<Progress, AirapError>(Progress::Ready),
            StreamState::Failed | StreamState::Terminated => r matches Err(error)
                && is_audio_error(error, "stream state failed"@),
            _ => r == Ok::<Progress, AirapError>(Progress::Pending),
        },
{
    match state {
        StreamState::Ready => Ok(Progress::Ready),
        StreamState::Failed | StreamState::Terminated => Err(
            AirapError::with_text("stream state failed", AirapErrorKind::Audio),
        ),
        _ => Ok(Progress::Pending),
    }
}

/// The buffer sizes for a recording stream whose fragments hold
/// `fragment_bytes`: the server may buffer up to four fragments, and the
/// sizes that matter to playback alone are left at zero.
pub fn record_buffer(fragment_bytes: u32) -> (r: BufferPlan)
    requires
        fragment_bytes * 4 <= u32::MAX,
    ensures
        r == (BufferPlan {
            maxlength: (fragment_bytes * 4) as u32,
            tlength: 0,
            prebuf: 0,
            minreq: 0,
            fragsize: fragment_bytes,
        }),
{
    BufferPlan {
        maxlength: fragment_bytes * 4,
        tlength: 0,
        prebuf: 0,
        minreq: 0,
        fragsize: fragment_bytes,
    }
}

} // verus!
