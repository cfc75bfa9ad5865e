//! The per-connection state machine of an event stream.
//!
//! The surrounding application owns the transport: it awaits the next
//! event or the keepalive timer, feeds what happened into `step`, and
//! performs the action that comes back. The machine decides; it never
//! blocks and never does I/O.
//!
//! A lagging receiver is a terminal error by design: missed live events
//! cannot be back-filled from the channel, so the client is forced to
//! reconnect and re-fetch state through the permissive query path.

use vstd::prelude::*;

verus! {

/// The keepalive interval of a stream: one second of silence.
pub const KEEPALIVE_INTERVAL_MS: u64 = 1000;

/// What the transport observed while a stream was open.
pub enum StreamInput {
    /// The next event arrived, already framed for the wire.
    Event(String),
    /// The receiver fell behind and lost the given number of events.
    Lagged(u64),
    /// Every publishing end of the channel is gone.
    Closed,
    /// Nothing happened; the timer fired.
    Silence,
}

/// What the stream must do next.
pub enum StreamOutput {
    /// Emit this data frame.
    Frame(String),
    /// Emit a no-op keepalive frame, so that idle intermediaries keep the
    /// connection open.
    Keepalive,
    /// Do nothing.
    Idle,
    /// Close the stream with a terminal error; the client must reconnect.
    Abort,
    /// Close the stream normally.
    End,
}

/// Whether a keepalive is owed at `now`, the last frame having been emitted
/// at `last` with the given interval.
pub open spec fn keepalive_due(last: int, interval: int, now: int) -> bool {
    now >= last + interval
}

/// One stream's timing state: its keepalive interval and the instant of the
/// last emitted frame.
pub struct StreamMachine {
    pub interval_ms: u64,
    pub last_ms: u64,
}

impl StreamMachine {
    pub open spec fn spec_interval(&self) -> u64 {
        self.interval_ms
    }

    pub open spec fn spec_last(&self) -> u64 {
        self.last_ms
    }

    /// The machine's whole behavior, stated in the open: the state after a
    /// step and the action the step demands. An arrived event is framed and
    /// resets the keepalive timer; a lagged receiver aborts the stream; a
    /// closed channel ends it; silence is answered with a keepalive exactly
    /// when one is due.
    pub open spec fn spec_step(self, input: StreamInput, now: u64) -> (StreamMachine, StreamOutput) {
        match input {
            StreamInput::Event(frame) => (
                StreamMachine { interval_ms: self.interval_ms, last_ms: now },
                StreamOutput::Frame(frame),
            ),
            StreamInput::Lagged(_) => (self, StreamOutput::Abort),
            StreamInput::Closed => (self, StreamOutput::End),
            StreamInput::Silence => if keepalive_due(
                self.last_ms as int,
                self.interval_ms as int,
                now as int,
            ) {
                (
                    StreamMachine { interval_ms: self.interval_ms, last_ms: now },
                    StreamOutput::Keepalive,
                )
            } else {
                (self, StreamOutput::Idle)
            },
        }
    }

    /// A stream opened at `start_ms` with the given keepalive interval.
    pub fn new(interval_ms: u64, start_ms: u64) -> (m: StreamMachine)
        ensures
            m.spec_interval() == interval_ms,
            m.spec_last() == start_ms,
    {
        StreamMachine { interval_ms, last_ms: start_ms }
    }

    /// Advances the stream by one observation made at `now`.
    pub fn step(&mut self, input: StreamInput, now: u64) -> (out: StreamOutput)
        ensures
            (*final(self), out) == old(self).spec_step(input, now),
            final(self).spec_interval() == old(self).spec_interval(),
    {
        match input {
            StreamInput::Event(frame) => {
                self.last_ms = now;
                StreamOutput::Frame(frame)
            },
            StreamInput::Lagged(_) => StreamOutput::Abort,
            StreamInput::Closed => StreamOutput::End,
            StreamInput::Silence => {
                if now >= self.last_ms && now - self.last_ms >= self.interval_ms {
                    self.last_ms = now;
                    StreamOutput::Keepalive
                } else {
                    StreamOutput::Idle
                }
            },
        }
    }
}

/// Keepalive liveness: however long a stream stays silent, each silent poll
/// an interval after the last frame emits a keepalive — so a silent stream
/// polled at interval boundaries emits one keepalive per interval, and (by
/// `lemma_silence_no_frame`) no data frame at all.
pub proof fn lemma_keepalive_liveness(m: StreamMachine, t1: u64, t2: u64)
    requires
        m.spec_interval() > 0,
        t1 >= m.spec_last() + m.spec_interval(),
        t2 >= t1 + m.spec_interval(),
    ensures
        m.spec_step(StreamInput::Silence, t1).1 is Keepalive,
        m.spec_step(StreamInput::Silence, t1).0.spec_step(StreamInput::Silence, t2).1
            is Keepalive,
{
}

/// Silence alone never yields a data frame: every data frame of a stream
/// answers an arrived event.
pub proof fn lemma_silence_no_frame(m: StreamMachine, now: u64)
    ensures
        !(m.spec_step(StreamInput::Silence, now).1 is Frame),
{
}

} // verus!
