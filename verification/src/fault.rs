//! The places at which a session or a renderer can fail, with the kind of
//! error and the message that each one gives.

use vstd::prelude::*;
use crate::stream::{StreamError, StreamEvent};

verus! {

/// What went wrong, by the place at which it was found.
#[derive(Clone, Copy, Debug, PartialEq, Eq)]
pub enum Fault {
    /// The host has no window.
    NoWindow,
    /// The window has no document.
    NoDocument,
    /// The document has no body to attach the playback element to.
    NoBody,
    /// The surface gave no 2D drawing context.
    NoContext,
    /// The playback element could not be built, wired into the audio graph
    /// or started.
    NoPlayback,
    /// The decode endpoint gave no buffer for the stream's format.
    NoBuffer,
    /// The fetch failed, or its response was not a success.
    FetchFailed,
    /// The response carried no body to read.
    NoResponseBody,
    /// A read of the response's body failed.
    ReadFailed,
    /// The decode buffer rejected an append.
    AppendRejected,
    /// The decode buffer rejected the end-of-stream signal.
    EndRejected,
    /// The acknowledgment of an append can no longer arrive.
    AckLost,
}

impl Fault {
    /// The kind of error that the fault is.
    pub open spec fn kind_spec(self) -> StreamError {
        match self {
            Fault::NoWindow
            | Fault::NoDocument
            | Fault::NoBody
            | Fault::NoContext
            | Fault::NoPlayback
            | Fault::NoBuffer => StreamError::CapabilityUnavailable,
            Fault::FetchFailed | Fault::NoResponseBody | Fault::ReadFailed => StreamError::NetworkError,
            Fault::AppendRejected | Fault::EndRejected => StreamError::BufferError,
            Fault::AckLost => StreamError::SurfaceClosed,
        }
    }

    /// The message of the fault.
    pub open spec fn text(self) -> Seq<char> {
        match self {
            Fault::NoWindow => "No window found"@,
            Fault::NoDocument => "No document found"@,
            Fault::NoBody => "No body found"@,
            Fault::NoContext => "Failed to get 2D context"@,
            Fault::NoPlayback => "Failed to start audio playback"@,
            Fault::NoBuffer => "Failed to create the source buffer"@,
            Fault::FetchFailed => "Failed to fetch audio file"@,
            Fault::NoResponseBody => "No response body"@,
            Fault::ReadFailed => "Failed to read the audio stream"@,
            Fault::AppendRejected => "Failed to append to the buffer"@,
            Fault::EndRejected => "Failed to end the stream"@,
            Fault::AckLost => "Failed to receive updateend event"@,
        }
    }

    /// The kind of error that the fault is.
    pub fn kind(&self) -> (kind: StreamError)
        ensures
            kind == self.kind_spec(),
    {
        match self {
            Fault::NoWindow
            | Fault::NoDocument
            | Fault::NoBody
            | Fault::NoContext
            | Fault::NoPlayback
            | Fault::NoBuffer => StreamError::CapabilityUnavailable,
            Fault::FetchFailed | Fault::NoResponseBody | Fault::ReadFailed => StreamError::NetworkError,
            Fault::AppendRejected | Fault::EndRejected => StreamError::BufferError,
            Fault::AckLost => StreamError::SurfaceClosed,
        }
    }

    /// The message of the fault.
    pub fn message(&self) -> (message: &'static str)
        ensures
            message@ == self.text(),
    {
        match self {
            Fault::NoWindow => "No window found",
            Fault::NoDocument => "No document found",
            Fault::NoBody => "No body found",
            Fault::NoContext => "Failed to get 2D context",
            Fault::NoPlayback => "Failed to start audio playback",
            Fault::NoBuffer => "Failed to create the source buffer",
            Fault::FetchFailed => "Failed to fetch audio file",
            Fault::NoResponseBody => "No response body",
            Fault::ReadFailed => "Failed to read the audio stream",
            Fault::AppendRejected => "Failed to append to the buffer",
            Fault::EndRejected => "Failed to end the stream",
            Fault::AckLost => "Failed to receive updateend event",
        }
    }

    /// The event that reports the fault to the ingestion controller: a
    /// failure of the fault's kind.
    pub fn event(&self) -> (event: StreamEvent)
        ensures
            event == StreamEvent::Failed(self.kind_spec()),
    {
        StreamEvent::Failed(self.kind())
    }
}

/// Judges the response to the fetch: it must be a success, and carry a body.
pub fn check_response(ok: bool, has_body: bool) -> (r: Result<(), Fault>)
    ensures
        r == (if !ok {
            Err::<(), Fault>(Fault::FetchFailed)
        } else if !has_body {
            Err::<(), Fault>(Fault::NoResponseBody)
        } else {
            Ok::<(), Fault>(())
        }),
{
    if !ok {
        Err(Fault::FetchFailed)
    } else if !has_body {
        Err(Fault::NoResponseBody)
    } else {
        Ok(())
    }
}

} // verus!
