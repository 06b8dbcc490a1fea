//! The streaming publisher: one live push session per connected client.
//!
//! A session steps through `Connected -> Streaming -> Closed`. While it is
//! streaming it repeatedly reads the current snapshot, renders it, and hands
//! the text to the transport; the transport's send result drives the next
//! transition. The first failed send closes the session — the client
//! disconnected or the transport errored — and a closed session emits
//! nothing, ever. The embedding owns the transport and the publish-interval
//! timer; one iteration of its loop is: `next_payload`, send, then
//! `on_send_result` and the wait.
//!
//! The publish cadence is independent of the sampling cadence: a slow
//! sampler makes the session re-send the same snapshot, a fast one makes it
//! skip intermediate snapshots.

use vstd::prelude::*;

use crate::store::SharedState;
use crate::wire::{json_of, render_json};

verus! {

/// Lifecycle of one stream session.
#[derive(Clone, Copy, Debug, PartialEq, Eq, Structural)]
pub enum SessionState {
    /// The connection is established; streaming has not begun.
    Connected,
    /// Snapshots are being pushed on every publish interval.
    Streaming,
    /// The session is over; it will never emit again.
    Closed,
}

/// What the transport reported for one pushed message.
#[derive(Clone, Copy, Debug, PartialEq, Eq, Structural)]
pub enum SendOutcome {
    /// The message was handed to the client.
    Delivered,
    /// The send failed: the remote end disconnected or the transport errored.
    Failed,
}

/// One client's live push session.
pub struct StreamSession {
    /// Where the session stands in its lifecycle.
    pub state: SessionState,
    /// Fixed pause between two pushed messages, in milliseconds.
    pub publish_interval_ms: u64,
}

impl StreamSession {
    /// A freshly accepted connection: not yet streaming.
    pub fn open(publish_interval_ms: u64) -> (s: Self)
        ensures
            s.state is Connected,
            s.publish_interval_ms == publish_interval_ms,
    {
        StreamSession { state: SessionState::Connected, publish_interval_ms }
    }

    /// Enters the push loop.
    pub fn begin_streaming(&mut self)
        requires
            old(self).state is Connected,
        ensures
            final(self).state is Streaming,
            final(self).publish_interval_ms == old(self).publish_interval_ms,
    {
        self.state = SessionState::Streaming;
    }

    /// The next message to push: the current snapshot's JSON text while the
    /// session is streaming, and nothing — never a message — otherwise.
    pub fn next_payload(&self, store: &SharedState) -> (r: Option<String>)
        ensures
            self.state is Streaming ==> (r matches Some(p) && p@ == json_of(store@)),
            !(self.state is Streaming) ==> r is None,
    {
        match self.state {
            SessionState::Streaming => {
                let snapshot = store.get();
                Some(render_json(&snapshot))
            },
            _ => None,
        }
    }

    /// Advances the lifecycle on the transport's report: a delivered message
    /// keeps the session streaming; the first failure closes it for good.
    pub fn on_send_result(&mut self, outcome: SendOutcome)
        requires
            old(self).state is Streaming,
        ensures
            final(self).publish_interval_ms == old(self).publish_interval_ms,
            outcome is Delivered ==> final(self).state is Streaming,
            outcome is Failed ==> final(self).state is Closed,
    {
        match outcome {
            SendOutcome::Delivered => {},
            SendOutcome::Failed => {
                self.state = SessionState::Closed;
            },
        }
    }

    /// Ends the session from this side (process shutdown, transport gone).
    pub fn close(&mut self)
        ensures
            final(self).state is Closed,
            final(self).publish_interval_ms == old(self).publish_interval_ms,
    {
        self.state = SessionState::Closed;
    }

    /// Whether the session is over.
    pub fn is_closed(&self) -> (b: bool)
        ensures
            b == (self.state is Closed),
    {
        match self.state {
            SessionState::Closed => true,
            _ => false,
        }
    }

    /// Whether the session is in its push loop.
    pub fn is_streaming(&self) -> (b: bool)
        ensures
            b == (self.state is Streaming),
    {
        match self.state {
            SessionState::Streaming => true,
            _ => false,
        }
    }
}

/// A failed send closes the session, and a closed session emits no message.
/// The premises are what `on_send_result` ensures of a failed send and what
/// `next_payload` then ensures of the closed session, so after the first
/// failure no later iteration of the push loop produces a payload.
pub proof fn law_send_failure_silences_session(after: StreamSession, payload: Option<String>)
    requires
        after.state is Closed,
        !(after.state is Streaming) ==> payload is None,
    ensures
        payload is None,
{
}

} // verus!
