//! The start/stop lifecycle of a capture session.
//!
//! The controller only decides: the caller performs what a transition asks for
//! (opening the stream, signalling the worker) and reports back what happened.
use vstd::prelude::*;
use crate::error::RustError;
use crate::ring_buffer::RingBuffer;

verus! {

/// Where a capture session stands.
#[derive(Debug, Clone, Copy, PartialEq, Eq, Structural)]
pub enum CaptureState {
    /// No session; a capture may start.
    Idle,
    /// A start was accepted; the stream is being opened.
    Starting,
    /// The stream is live.
    Streaming,
    /// The worker was asked to stop and has not confirmed yet.
    Stopping,
}

/// What the caller of `stop` must do.
#[derive(Debug, Clone, Copy, PartialEq, Eq, Structural)]
pub enum StopAction {
    /// There is no session: stopping succeeds at once.
    Nothing,
    /// Send the stop signal to the worker, then wait for its confirmation.
    SignalWorker,
    /// A stop is already under way: wait for the worker's confirmation.
    AwaitWorker,
}

/// The result of a start request in state `s`.
pub open spec fn start_result(s: CaptureState) -> Result<(), RustError> {
    if s == CaptureState::Idle {
        Ok(())
    } else {
        Err(RustError::AlreadyStreaming)
    }
}

/// The state after a start request in state `s`.
pub open spec fn after_start(s: CaptureState) -> CaptureState {
    if s == CaptureState::Idle {
        CaptureState::Starting
    } else {
        s
    }
}

/// The state after the stream was opened in state `s`.
pub open spec fn after_opened(s: CaptureState) -> CaptureState {
    if s == CaptureState::Starting {
        CaptureState::Streaming
    } else {
        s
    }
}

/// The state after a stop request in state `s`.
pub open spec fn after_stop(s: CaptureState) -> CaptureState {
    if s == CaptureState::Idle {
        CaptureState::Idle
    } else {
        CaptureState::Stopping
    }
}

/// What a stop request in state `s` asks of the caller.
pub open spec fn stop_action(s: CaptureState) -> StopAction {
    match s {
        CaptureState::Idle => StopAction::Nothing,
        CaptureState::Stopping => StopAction::AwaitWorker,
        _ => StopAction::SignalWorker,
    }
}

/// The lifecycle flags of the capture engine.
pub struct CaptureLifecycle {
    state: CaptureState,
}

impl View for CaptureLifecycle {
    type V = CaptureState;

    closed spec fn view(&self) -> CaptureState {
        self.state
    }
}

impl CaptureLifecycle {
    /// An idle lifecycle.
    pub fn new() -> (r: Self)
        ensures
            r@ == CaptureState::Idle,
    {
        CaptureLifecycle { state: CaptureState::Idle }
    }

    /// The current state.
    pub fn state(&self) -> (r: CaptureState)
        ensures
            r == self@,
    {
        self.state
    }

    /// Whether a stream is live.
    pub fn is_streaming(&self) -> (r: bool)
        ensures
            r == (self@ == CaptureState::Streaming),
    {
        match self.state {
            CaptureState::Streaming => true,
            _ => false,
        }
    }

    /// Accepts a start request when idle; otherwise fails with `AlreadyStreaming`
    /// and changes nothing.
    pub fn start(&mut self) -> (r: Result<(), RustError>)
        ensures
            r == start_result(old(self)@),
            final(self)@ == after_start(old(self)@),
    {
        match self.state {
            CaptureState::Idle => {
                self.state = CaptureState::Starting;
                Ok(())
            },
            _ => Err(RustError::AlreadyStreaming),
        }
    }

    /// Records that the stream opened and plays. A stop requested meanwhile stays
    /// in force.
    pub fn stream_opened(&mut self)
        ensures
            final(self)@ == after_opened(old(self)@),
    {
        match self.state {
            CaptureState::Starting => {
                self.state = CaptureState::Streaming;
            },
            _ => {},
        }
    }

    /// A stop request: says what the caller must do to have the worker release
    /// the stream. When idle this is a no-op.
    pub fn stop(&mut self) -> (r: StopAction)
        ensures
            r == stop_action(old(self)@),
            final(self)@ == after_stop(old(self)@),
    {
        match self.state {
            CaptureState::Idle => StopAction::Nothing,
            CaptureState::Stopping => StopAction::AwaitWorker,
            _ => {
                self.state = CaptureState::Stopping;
                StopAction::SignalWorker
            },
        }
    }

    /// Records that the worker has released the stream, because it was stopped or
    /// because opening the stream failed. Only now is the session idle.
    pub fn worker_finished(&mut self)
        ensures
            final(self)@ == CaptureState::Idle,
    {
        self.state = CaptureState::Idle;
    }

    /// Ends a capture session once its worker has released the stream: the
    /// session is idle and the sample window is emptied, so that the next
    /// session starts without stale samples. The window's capacity stays.
    pub fn end_session<T: Copy>(&mut self, buffer: &mut RingBuffer<T>)
        requires
            old(buffer).wf(),
        ensures
            final(self)@ == CaptureState::Idle,
            final(buffer).wf(),
            final(buffer)@ == Seq::<T>::empty(),
            final(buffer).spec_capacity() == old(buffer).spec_capacity(),
    {
        buffer.clear();
        self.worker_finished();
    }
}

/// A second start without a stop in between fails with `AlreadyStreaming`,
/// whether or not the stream has opened since the first.
pub proof fn lemma_start_twice(s: CaptureState)
    requires
        start_result(s) is Ok,
    ensures
        start_result(after_start(s)) == Err::<(), RustError>(RustError::AlreadyStreaming),
        start_result(after_opened(after_start(s))) == Err::<(), RustError>(
            RustError::AlreadyStreaming,
        ),
{
}

/// Stopping an idle session is a no-op success, however often it is repeated;
/// and from any state a second stop leaves the state the first one left.
pub proof fn lemma_stop_idempotent(s: CaptureState)
    ensures
        after_stop(CaptureState::Idle) == CaptureState::Idle,
        stop_action(CaptureState::Idle) == StopAction::Nothing,
        after_stop(after_stop(s)) == after_stop(s),
        s != CaptureState::Idle ==> stop_action(after_stop(s)) == StopAction::AwaitWorker,
{
}

} // verus!
