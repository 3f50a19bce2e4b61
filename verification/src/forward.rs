//! Per-event decisions of a stream-forwarding task.
//!
//! One task drains one of the child's output streams (standard output or
//! standard error).  The host reads the stream and hands the task one event
//! at a time; the task decides what to do with it: forward a complete line to
//! the logging sink tagged with the task's stream, log a read failure once
//! and exit, or exit on clean end-of-stream.  The two tasks share nothing and
//! never wait on each other; `Stop` never waits on them either — killing the
//! child closes the descriptors, which ends both streams on their own.

use vstd::prelude::*;

verus! {

/// Which of the child's two output streams a line came from.
#[derive(Debug, PartialEq, Eq, Structural, Clone, Copy)]
pub enum StreamKind {
    /// The child's standard output.
    Stdout,
    /// The child's standard error.
    Stderr,
}

/// One event the host observes while reading a single stream.
#[derive(Debug, PartialEq, Eq)]
pub enum StreamEvent {
    /// A complete line read from the stream.
    Line(String),
    /// The read failed before end-of-stream; carries the error text.
    ReadFailed(String),
    /// Clean end-of-stream: the child closed the descriptor, typically
    /// because it exited or was killed.
    Closed,
}

/// One call to the host's logging sink: a line tagged with its origin.
#[derive(Debug, PartialEq, Eq)]
pub struct SinkLine {
    /// The stream the line came from.
    pub kind: StreamKind,
    /// The line itself.
    pub text: String,
}

/// What a forwarding task does with one event.
#[derive(Debug, PartialEq, Eq)]
pub enum ForwardAction {
    /// Forward the tagged line to the sink and keep reading.
    Emit(SinkLine),
    /// Log the read error once; the task exits.
    FailOnce(String),
    /// End-of-stream: the task exits.
    Finish,
    /// The task has already exited; nothing is done.
    Ignore,
}

/// A forwarding task: the stream it drains, and whether it has exited.
pub struct ForwardTask {
    /// The stream being drained, and the tag put on every forwarded line.
    pub kind: StreamKind,
    /// The task has exited: nothing is forwarded any more.
    pub done: bool,
}

impl ForwardTask {
    /// What one event does to the task: a line is forwarded tagged with the
    /// task's stream, a read failure is logged once and ends the task,
    /// end-of-stream ends the task, and a task that has ended does nothing.
    pub open spec fn spec_step(self, event: StreamEvent) -> (ForwardTask, ForwardAction) {
        if self.done {
            (self, ForwardAction::Ignore)
        } else {
            match event {
                StreamEvent::Line(text) => (
                    self,
                    ForwardAction::Emit(SinkLine { kind: self.kind, text }),
                ),
                StreamEvent::ReadFailed(message) => (
                    ForwardTask { kind: self.kind, done: true },
                    ForwardAction::FailOnce(message),
                ),
                StreamEvent::Closed => (
                    ForwardTask { kind: self.kind, done: true },
                    ForwardAction::Finish,
                ),
            }
        }
    }

    /// A fresh task for one stream.
    pub fn new(kind: StreamKind) -> (t: ForwardTask)
        ensures
            t == (ForwardTask { kind, done: false }),
    {
        ForwardTask { kind, done: false }
    }

    /// Decide what to do with one event read from the stream.
    pub fn step(&mut self, event: StreamEvent) -> (action: ForwardAction)
        ensures
            (*final(self), action) == old(self).spec_step(event),
    {
        if self.done {
            ForwardAction::Ignore
        } else {
            match event {
                StreamEvent::Line(text) => {
                    ForwardAction::Emit(SinkLine { kind: self.kind, text })
                },
                StreamEvent::ReadFailed(message) => {
                    self.done = true;
                    ForwardAction::FailOnce(message)
                },
                StreamEvent::Closed => {
                    self.done = true;
                    ForwardAction::Finish
                },
            }
        }
    }

    /// Whether the task has exited.
    pub fn is_done(&self) -> (r: bool)
        ensures
            r == self.done,
    {
        self.done
    }
}

/// The lines a task for `kind` hands the sink over a whole recorded stream:
/// every complete line before the first read failure or end-of-stream, in
/// reading order, each tagged with `kind`.
pub open spec fn spec_sink_lines(kind: StreamKind, events: Seq<StreamEvent>) -> Seq<SinkLine>
    decreases events.len(),
{
    if events.len() == 0 {
        Seq::empty()
    } else {
        match events.first() {
            StreamEvent::Line(text) => seq![SinkLine { kind, text }] + spec_sink_lines(
                kind,
                events.drop_first(),
            ),
            _ => Seq::empty(),
        }
    }
}

/// The complete lines the child wrote to one stream before it ended: the
/// `Line` payloads before the first read failure or end-of-stream.
pub open spec fn spec_stream_lines(events: Seq<StreamEvent>) -> Seq<String>
    decreases events.len(),
{
    if events.len() == 0 {
        Seq::empty()
    } else {
        match events.first() {
            StreamEvent::Line(text) => seq![text] + spec_stream_lines(events.drop_first()),
            _ => Seq::empty(),
        }
    }
}

/// Every line the child wrote to a stream before it ended reaches the sink
/// exactly once, in writing order, tagged with that stream — no line is
/// dropped, duplicated or reordered.
pub proof fn lemma_lines_forwarded_exactly_once(kind: StreamKind, events: Seq<StreamEvent>)
    ensures
        spec_sink_lines(kind, events).len() == spec_stream_lines(events).len(),
        forall|i: int|
            0 <= i < spec_stream_lines(events).len() ==> spec_sink_lines(kind, events)[i] == (
            SinkLine { kind, text: spec_stream_lines(events)[i] }),
    decreases events.len(),
{
    if events.len() != 0 {
        lemma_lines_forwarded_exactly_once(kind, events.drop_first());
    }
}

/// Run one forwarding task over a recorded stream: the lines it hands the
/// sink, in order.  Events after the first read failure or end-of-stream are
/// ignored, exactly as a live task would ignore them by having exited.
pub fn drain(kind: StreamKind, events: &Vec<StreamEvent>) -> (out: Vec<SinkLine>)
    ensures
        out@ == spec_sink_lines(kind, events@),
{
    let mut task = ForwardTask::new(kind);
    let mut out: Vec<SinkLine> = Vec::new();
    let mut i: usize = 0;
    let n = events.len();
    proof {
        assert(events@.skip(0) =~= events@);
        assert(out@ + spec_sink_lines(kind, events@) =~= spec_sink_lines(kind, events@));
    }
    while i < n
        invariant
            n == events@.len(),
            i <= n,
            task.kind == kind,
            task.done ==> out@ == spec_sink_lines(kind, events@),
            !task.done ==> spec_sink_lines(kind, events@) == out@ + spec_sink_lines(
                kind,
                events@.skip(i as int),
            ),
        decreases n - i,
    {
        let event: StreamEvent = match &events[i] {
            StreamEvent::Line(text) => StreamEvent::Line(text.clone()),
            StreamEvent::ReadFailed(message) => StreamEvent::ReadFailed(message.clone()),
            StreamEvent::Closed => StreamEvent::Closed,
        };
        proof {
            assert(events@.skip(i as int).drop_first() =~= events@.skip(i + 1));
        }
        let ghost out_before = out@;
        match task.step(event) {
            ForwardAction::Emit(line) => {
                out.push(line);
                proof {
                    assert(out@ + spec_sink_lines(kind, events@.skip(i + 1)) =~= out_before
                        + spec_sink_lines(kind, events@.skip(i as int)));
                }
            },
            _ => {
                proof {
                    assert(out@ + Seq::<SinkLine>::empty() =~= out@);
                }
            },
        }
        i += 1;
    }
    proof {
        if !task.done {
            assert(events@.skip(n as int) =~= Seq::<StreamEvent>::empty());
            assert(out@ + spec_sink_lines(kind, events@.skip(n as int)) =~= out@);
        }
    }
    out
}

} // verus!
