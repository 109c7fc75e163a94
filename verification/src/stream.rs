//! The streaming ingestion controller: the decisions of one playback session.
//!
//! The controller performs no outside work. The task that drives a session
//! reports each outcome as a [`StreamEvent`] and receives the next
//! [`StreamAction`] to perform. A session is named by a number; an event
//! reported under the number of an earlier session is ignored, so a task that
//! outlives its session ends at its next report.

use vstd::prelude::*;

verus! {

/// The kinds of error.
#[derive(Clone, Copy, Debug, PartialEq, Eq)]
pub enum StreamError {
    /// The fetch or the transport failed, or the response was not a success.
    NetworkError,
    /// The decode buffer rejected an append.
    BufferError,
    /// The acknowledgment was awaited on a buffer that was torn down.
    SurfaceClosed,
    /// The audio pipeline or a drawing context could not be acquired.
    CapabilityUnavailable,
}

/// The states of a session.
#[derive(Clone, Copy, Debug, PartialEq, Eq)]
pub enum SessionState {
    Idle,
    Opening,
    Streaming,
    Draining,
    Ended,
    Failed(StreamError),
}

/// What the driving task reports.
#[derive(Clone, Copy, Debug, PartialEq, Eq)]
pub enum StreamEvent {
    /// The decode endpoint opened: a buffer can be added to it.
    SourceOpened,
    /// The buffer exists and the response arrived, successful and with a body.
    Connected,
    /// One read of the network reader resolved. `done` is the flag as the
    /// reader gave it, if it gave one; `payload` is the length of the bytes
    /// that came with it, if any came.
    ChunkArrived { done: Option<bool>, payload: Option<usize> },
    /// The buffer signalled that the append in progress is complete.
    Acknowledged,
    /// The buffer accepted the end-of-stream signal.
    EndSignalled,
    /// An outside operation failed.
    Failed(StreamError),
}

/// What the driving task is to do next.
#[derive(Clone, Copy, Debug, PartialEq, Eq)]
pub enum StreamAction {
    /// Nothing: the event belongs to no step that the live session waits for.
    /// A task that is told this has no session left to serve.
    Ignore,
    /// Add the buffer to the decode endpoint and open the chunked read.
    Connect,
    /// Request the next chunk from the reader.
    ReadChunk,
    /// Append the chunk just read to the buffer, then await its
    /// acknowledgment.
    Append,
    /// Signal end-of-stream on the buffer.
    SignalEnd,
    /// The stream is complete; the task ends.
    Finish,
    /// Report the error; the task ends.
    Abort(StreamError),
}

/// The mathematical state of the controller.
pub struct SessionModel {
    pub state: SessionState,
    /// Whether the decode endpoint of the opening session has opened.
    pub source_open: bool,
    /// Whether an append awaits its acknowledgment.
    pub ack_pending: bool,
    /// The number of the live session, or of the last one.
    pub session: u64,
}

impl SessionModel {
    /// The controller before any session.
    pub open spec fn initial() -> SessionModel {
        SessionModel { state: SessionState::Idle, source_open: false, ack_pending: false, session: 0 }
    }

    /// Whether a session is under way.
    pub open spec fn active(self) -> bool {
        self.state is Opening || self.state is Streaming || self.state is Draining
    }

    /// The controller after `stop`: idle, with no acknowledgment awaited.
    pub open spec fn stopped(self) -> SessionModel {
        SessionModel {
            state: SessionState::Idle,
            source_open: false,
            ack_pending: false,
            session: self.session,
        }
    }

    /// The controller after `start`: a new session, opening.
    pub open spec fn started(self) -> SessionModel {
        SessionModel {
            state: SessionState::Opening,
            source_open: false,
            ack_pending: false,
            session: if self.session == u64::MAX { 0 } else { (self.session + 1) as u64 },
        }
    }

    /// The controller in the given state, with no acknowledgment awaited.
    pub open spec fn moved_to(self, state: SessionState) -> SessionModel {
        SessionModel { state, source_open: false, ack_pending: false, session: self.session }
    }

    /// The transition function: the state after an event reported under a
    /// session number, and the action that answers it.
    pub open spec fn on_event(self, session: u64, event: StreamEvent) -> (SessionModel, StreamAction) {
        if session != self.session {
            (self, StreamAction::Ignore)
        } else {
            match (self.state, event) {
                (SessionState::Opening, StreamEvent::SourceOpened) => if self.source_open {
                    (self, StreamAction::Ignore)
                } else {
                    (SessionModel { source_open: true, ..self }, StreamAction::Connect)
                },
                (SessionState::Opening, StreamEvent::Connected) => if self.source_open {
                    (self.moved_to(SessionState::Streaming), StreamAction::ReadChunk)
                } else {
                    (self, StreamAction::Ignore)
                },
                (SessionState::Streaming, StreamEvent::ChunkArrived { done, payload }) => if self.ack_pending {
                    (self, StreamAction::Ignore)
                } else if done == Some(true) {
                    (self.moved_to(SessionState::Draining), StreamAction::SignalEnd)
                } else if payload is Some {
                    (SessionModel { ack_pending: true, ..self }, StreamAction::Append)
                } else {
                    (self, StreamAction::ReadChunk)
                },
                (SessionState::Streaming, StreamEvent::Acknowledged) => if self.ack_pending {
                    (SessionModel { ack_pending: false, ..self }, StreamAction::ReadChunk)
                } else {
                    (self, StreamAction::Ignore)
                },
                (SessionState::Draining, StreamEvent::EndSignalled) => (
                    self.moved_to(SessionState::Ended),
                    StreamAction::Finish,
                ),
                (_, StreamEvent::Failed(error)) => if self.active() {
                    (self.moved_to(SessionState::Failed(error)), StreamAction::Abort(error))
                } else {
                    (self, StreamAction::Ignore)
                },
                _ => (self, StreamAction::Ignore),
            }
        }
    }
}

/// The controller of the playback sessions of one pipeline, one at a time.
pub struct StreamIngestionController {
    state: SessionState,
    source_open: bool,
    ack_pending: bool,
    session: u64,
}

impl View for StreamIngestionController {
    type V = SessionModel;

    closed spec fn view(&self) -> SessionModel {
        SessionModel {
            state: self.state,
            source_open: self.source_open,
            ack_pending: self.ack_pending,
            session: self.session,
        }
    }
}

impl StreamIngestionController {
    /// An idle controller.
    pub fn new() -> (c: StreamIngestionController)
        ensures
            c@ == SessionModel::initial(),
    {
        StreamIngestionController {
            state: SessionState::Idle,
            source_open: false,
            ack_pending: false,
            session: 0,
        }
    }

    /// The state of the live session, or of the last one.
    pub fn state(&self) -> (s: SessionState)
        ensures
            s == self@.state,
    {
        self.state
    }

    /// The number under which the live session's events are reported.
    pub fn session(&self) -> (n: u64)
        ensures
            n == self@.session,
    {
        self.session
    }

    /// Whether an append awaits its acknowledgment.
    pub fn awaiting_ack(&self) -> (b: bool)
        ensures
            b == self@.ack_pending,
    {
        self.ack_pending
    }

    /// Begins a new session. Returns whether a session had to be torn down
    /// first, which is the case unless the controller was idle.
    pub fn start(&mut self) -> (teardown: bool)
        ensures
            final(self)@ == old(self)@.started(),
            teardown == !(old(self)@.state is Idle),
    {
        let teardown = match self.state {
            SessionState::Idle => false,
            _ => true,
        };
        self.state = SessionState::Opening;
        self.source_open = false;
        self.ack_pending = false;
        self.session = if self.session == u64::MAX {
            0
        } else {
            self.session + 1
        };
        teardown
    }

    /// Abandons the session, whatever its state. Returns whether a session
    /// was under way.
    pub fn stop(&mut self) -> (was_active: bool)
        ensures
            final(self)@ == old(self)@.stopped(),
            final(self)@.state is Idle,
            was_active == old(self)@.active(),
    {
        let was_active = match self.state {
            SessionState::Opening | SessionState::Streaming | SessionState::Draining => true,
            _ => false,
        };
        self.state = SessionState::Idle;
        self.source_open = false;
        self.ack_pending = false;
        was_active
    }

    /// Takes one event reported under a session number and answers with the
    /// action to perform.
    pub fn on_event(&mut self, session: u64, event: StreamEvent) -> (action: StreamAction)
        ensures
            (final(self)@, action) == old(self)@.on_event(session, event),
    {
        if session != self.session {
            return StreamAction::Ignore;
        }
        match (self.state, event) {
            (SessionState::Opening, StreamEvent::SourceOpened) => {
                if self.source_open {
                    StreamAction::Ignore
                } else {
                    self.source_open = true;
                    StreamAction::Connect
                }
            },
            (SessionState::Opening, StreamEvent::Connected) => {
                if self.source_open {
                    self.enter(SessionState::Streaming);
                    StreamAction::ReadChunk
                } else {
                    StreamAction::Ignore
                }
            },
            (SessionState::Streaming, StreamEvent::ChunkArrived { done, payload }) => {
                if self.ack_pending {
                    StreamAction::Ignore
                } else if is_done(done) {
                    self.enter(SessionState::Draining);
                    StreamAction::SignalEnd
                } else if payload.is_some() {
                    self.ack_pending = true;
                    StreamAction::Append
                } else {
                    StreamAction::ReadChunk
                }
            },
            (SessionState::Streaming, StreamEvent::Acknowledged) => {
                if self.ack_pending {
                    self.ack_pending = false;
                    StreamAction::ReadChunk
                } else {
                    StreamAction::Ignore
                }
            },
            (SessionState::Draining, StreamEvent::EndSignalled) => {
                self.enter(SessionState::Ended);
                StreamAction::Finish
            },
            (SessionState::Opening, StreamEvent::Failed(error))
            | (SessionState::Streaming, StreamEvent::Failed(error))
            | (SessionState::Draining, StreamEvent::Failed(error)) => {
                self.enter(SessionState::Failed(error));
                StreamAction::Abort(error)
            },
            _ => StreamAction::Ignore,
        }
    }

    fn enter(&mut self, state: SessionState)
        ensures
            final(self)@ == old(self)@.moved_to(state),
    {
        self.state = state;
        self.source_open = false;
        self.ack_pending = false;
    }
}

/// Reads the `done` flag of a chunk: a chunk without the flag is not the last.
pub fn is_done(done: Option<bool>) -> (b: bool)
    ensures
        b == (done == Some(true)),
{
    match done {
        Some(flag) => flag,
        None => false,
    }
}

/// The controller after the first `n` reports of a trace, each a session
/// number and an event.
pub open spec fn state_after(start: SessionModel, trace: Seq<(u64, StreamEvent)>, n: int) -> SessionModel
    decreases n,
{
    if n <= 0 {
        start
    } else {
        state_after(start, trace, n - 1).on_event(trace[n - 1].0, trace[n - 1].1).0
    }
}

/// The action that answers report `i` of a trace.
pub open spec fn action_at(start: SessionModel, trace: Seq<(u64, StreamEvent)>, i: int) -> StreamAction {
    state_after(start, trace, i).on_event(trace[i].0, trace[i].1).1
}

/// Whether report `k` of a trace is an acknowledgment that the controller
/// accepted: one of the live session, arriving while an append awaited it.
pub open spec fn accepted_ack(start: SessionModel, trace: Seq<(u64, StreamEvent)>, k: int) -> bool {
    &&& trace[k].1 is Acknowledged
    &&& trace[k].0 == state_after(start, trace, k).session
    &&& state_after(start, trace, k).ack_pending
    &&& action_at(start, trace, k) is ReadChunk
}

/// Whether the controller can issue no append before an acknowledgment: an
/// append awaits one, or the session has failed.
pub open spec fn blocked(m: SessionModel) -> bool {
    (m.state is Streaming && m.ack_pending) || m.state is Failed
}

/// An append leaves the controller waiting for its acknowledgment, and is
/// issued only while none is awaited.
pub proof fn lemma_append_arms(m: SessionModel, session: u64, event: StreamEvent)
    requires
        m.on_event(session, event).1 is Append,
    ensures
        !m.ack_pending,
        m.state is Streaming,
        m.on_event(session, event).0.ack_pending,
        m.on_event(session, event).0.state is Streaming,
        blocked(m.on_event(session, event).0),
{
}

/// A blocked controller stays blocked, and issues no append, on every event
/// but an acknowledgment that it accepts.
pub proof fn lemma_blocked_step(m: SessionModel, session: u64, event: StreamEvent)
    requires
        blocked(m),
        !(event is Acknowledged && session == m.session && m.ack_pending && m.state is Streaming),
    ensures
        blocked(m.on_event(session, event).0),
        !(m.on_event(session, event).1 is Append),
{
}

proof fn lemma_blocked_until_ack(
    start: SessionModel,
    trace: Seq<(u64, StreamEvent)>,
    i: int,
    m: int,
)
    requires
        0 <= i < m <= trace.len(),
        action_at(start, trace, i) is Append,
        forall|k: int| i < k < m ==> !accepted_ack(start, trace, k),
    ensures
        blocked(state_after(start, trace, m)),
    decreases m - i,
{
    if m == i + 1 {
        lemma_append_arms(state_after(start, trace, i), trace[i].0, trace[i].1);
    } else {
        lemma_blocked_until_ack(start, trace, i, m - 1);
        let before = state_after(start, trace, m - 1);
        assert(!accepted_ack(start, trace, m - 1));
        lemma_blocked_step(before, trace[m - 1].0, trace[m - 1].1);
    }
}

/// At most one append is outstanding at any instant: whatever is reported,
/// and in whatever order, between two appends that the controller issues it
/// has accepted the acknowledgment of the first.
pub proof fn lemma_one_outstanding_append(
    start: SessionModel,
    trace: Seq<(u64, StreamEvent)>,
    i: int,
    j: int,
)
    requires
        0 <= i < j < trace.len(),
        action_at(start, trace, i) is Append,
        action_at(start, trace, j) is Append,
    ensures
        exists|k: int| i < k < j && accepted_ack(start, trace, k),
{
    if forall|k: int| i < k < j ==> !accepted_ack(start, trace, k) {
        lemma_blocked_until_ack(start, trace, i, j);
        lemma_append_arms(state_after(start, trace, j), trace[j].0, trace[j].1);
        assert(false);
    }
}

/// `stop` leaves the controller idle from every state, and an idle controller
/// answers every event with `Ignore`.
pub proof fn lemma_stop_is_final(m: SessionModel, session: u64, event: StreamEvent)
    ensures
        m.stopped().state is Idle,
        !m.stopped().ack_pending,
        m.stopped().on_event(session, event) == (m.stopped(), StreamAction::Ignore),
{
}

/// A report under another number than the live session's changes nothing.
pub proof fn lemma_stale_report_ignored(m: SessionModel, session: u64, event: StreamEvent)
    requires
        session != m.session,
    ensures
        m.on_event(session, event) == (m, StreamAction::Ignore),
{
}

} // verus!
