//! The streaming drain: the state machine that the execution engine runs for
//! one command invocation.
//!
//! The engine spawns the built command and then drains stdout and stderr
//! concurrently, line by line, advancing on whichever stream next has a
//! complete line or end-of-stream. Each line is redacted, appended with a
//! newline to the per-stream buffer, and handed back for the build log. The
//! loop ends once both streams have signaled end-of-stream (or a read failed,
//! which ends the drain early and keeps the partial output); only then is the
//! child waited for, and only after the wait is the log flushed.
//!
//! The I/O itself (spawn, reads, waits, log writes) lives outside this
//! library; this module decides what each event means.

use vstd::prelude::*;
use crate::command::{pairs_view, ExecutionResult};
use crate::redact::{redact_line, spec_redact};

verus! {

/// Drop one trailing carriage return, so lines read from a stream with
/// CRLF endings capture and log the same text as lines from an LF stream.
pub fn strip_trailing_cr(line: &str) -> (r: &str)
    ensures
        line@.len() > 0 && line@.last() == '\r' ==> r@ == line@.drop_last(),
        !(line@.len() > 0 && line@.last() == '\r') ==> r@ == line@,
{
    let n = line.unicode_len();
    if n > 0 && line.get_char(n - 1) == '\r' {
        let r = line.substring_char(0, n - 1);
        proof {
            assert(line@.subrange(0, n - 1) =~= line@.drop_last());
        }
        r
    } else {
        line
    }
}

/// One observation made while draining the two streams.
pub enum StreamEvent {
    /// A complete line arrived on stdout (without its newline).
    OutLine(String),
    /// A complete line arrived on stderr (without its newline).
    ErrLine(String),
    /// stdout reported end-of-stream.
    OutEof,
    /// stderr reported end-of-stream.
    ErrEof,
    /// A read from either stream failed; the drain ends early and the
    /// output captured so far is kept.
    ReadError,
}

/// Stream openness after one event: end-of-stream closes its stream, a read
/// failure aborts the drain, and a line changes nothing.
pub open spec fn spec_openness_after(
    out_open: bool,
    err_open: bool,
    aborted: bool,
    ev: StreamEvent,
) -> (bool, bool, bool) {
    match ev {
        StreamEvent::OutLine(_) => (out_open, err_open, aborted),
        StreamEvent::ErrLine(_) => (out_open, err_open, aborted),
        StreamEvent::OutEof => (false, err_open, aborted),
        StreamEvent::ErrEof => (out_open, false, aborted),
        StreamEvent::ReadError => (out_open, err_open, true),
    }
}

/// The drain is done when both streams have ended, or a read failure ended
/// it early.
pub open spec fn spec_drain_done(out_open: bool, err_open: bool, aborted: bool) -> bool {
    aborted || (!out_open && !err_open)
}

/// The drain of one invocation: which streams are still open, and the
/// redacted output accumulated per stream.
pub struct DrainState {
    /// Whether stdout has not yet reported end-of-stream.
    pub out_open: bool,
    /// Whether stderr has not yet reported end-of-stream.
    pub err_open: bool,
    /// Whether a read failure ended the drain early.
    pub aborted: bool,
    /// Redacted stdout captured so far, one newline-terminated line per
    /// physical output line.
    pub stdout: String,
    /// Redacted stderr captured so far, likewise.
    pub stderr: String,
}

impl DrainState {
    /// A fresh drain: both streams open, nothing captured.
    pub fn new() -> (r: Self)
        ensures
            r.out_open,
            r.err_open,
            !r.aborted,
            r.stdout@ == Seq::<char>::empty(),
            r.stderr@ == Seq::<char>::empty(),
    {
        Self {
            out_open: true,
            err_open: true,
            aborted: false,
            stdout: String::new(),
            stderr: String::new(),
        }
    }

    /// See `spec_drain_done`.
    pub open spec fn done_spec(&self) -> bool {
        spec_drain_done(self.out_open, self.err_open, self.aborted)
    }

    /// Whether the drain loop must stop.
    pub fn done(&self) -> (r: bool)
        ensures
            r == self.done_spec(),
    {
        self.aborted || (!self.out_open && !self.err_open)
    }

    /// Process one stream event: redact a line and append it, with its
    /// newline, to its stream's buffer, or record an end-of-stream or read
    /// failure. Returns the redacted line that the engine appends to the
    /// build log and emits to telemetry, when the event carried one.
    pub fn on_event(&mut self, ev: StreamEvent, replacements: &Vec<(String, String)>) -> (log_line:
        Option<String>)
        ensures
            (final(self).out_open, final(self).err_open, final(self).aborted)
                == spec_openness_after(
                old(self).out_open,
                old(self).err_open,
                old(self).aborted,
                ev,
            ),
            ev matches StreamEvent::OutLine(l) ==> {
                &&& final(self).stdout@ == old(self).stdout@ + spec_redact(
                    l@,
                    pairs_view(replacements@),
                ) + "\n"@
                &&& final(self).stderr == old(self).stderr
                &&& log_line matches Some(x) && x@ == spec_redact(l@, pairs_view(replacements@))
            },
            ev matches StreamEvent::ErrLine(l) ==> {
                &&& final(self).stderr@ == old(self).stderr@ + spec_redact(
                    l@,
                    pairs_view(replacements@),
                ) + "\n"@
                &&& final(self).stdout == old(self).stdout
                &&& log_line matches Some(x) && x@ == spec_redact(l@, pairs_view(replacements@))
            },
            !(ev matches StreamEvent::OutLine(_)) && !(ev matches StreamEvent::ErrLine(_)) ==> {
                &&& final(self).stdout == old(self).stdout
                &&& final(self).stderr == old(self).stderr
                &&& log_line is None
            },
    {
        match ev {
            StreamEvent::OutLine(line) => {
                let filtered = redact_line(line.as_str(), replacements);
                self.stdout.append(filtered.as_str());
                self.stdout.append("\n");
                Some(filtered)
            },
            StreamEvent::ErrLine(line) => {
                let filtered = redact_line(line.as_str(), replacements);
                self.stderr.append(filtered.as_str());
                self.stderr.append("\n");
                Some(filtered)
            },
            StreamEvent::OutEof => {
                self.out_open = false;
                None
            },
            StreamEvent::ErrEof => {
                self.err_open = false;
                None
            },
            StreamEvent::ReadError => {
                self.aborted = true;
                None
            },
        }
    }

    /// Package the drained output with the child's exit status, once the
    /// child has been waited for.
    pub fn into_result(self, exit_code: Option<i32>, success: bool) -> (r: ExecutionResult)
        ensures
            r.exit_code == exit_code,
            r.success == success,
            r.stdout == self.stdout,
            r.stderr == self.stderr,
    {
        ExecutionResult { exit_code, success, stdout: self.stdout, stderr: self.stderr }
    }
}

/// The drain terminates on end-of-stream: from any state, once both streams
/// have reported end-of-stream — in either order, however far apart, with
/// any events between them — the drain is done; and once done, no event
/// reopens it.
pub proof fn lemma_drain_terminates_on_eof(
    out_open: bool,
    err_open: bool,
    aborted: bool,
    ev: StreamEvent,
)
    ensures
        ({
            let (o1, e1, a1) = spec_openness_after(out_open, err_open, aborted, StreamEvent::OutEof);
            let (o2, e2, a2) = spec_openness_after(o1, e1, a1, StreamEvent::ErrEof);
            spec_drain_done(o2, e2, a2)
        }),
        ({
            let (o1, e1, a1) = spec_openness_after(out_open, err_open, aborted, StreamEvent::ErrEof);
            let (o2, e2, a2) = spec_openness_after(o1, e1, a1, StreamEvent::OutEof);
            spec_drain_done(o2, e2, a2)
        }),
        ({
            let (o1, e1, a1) = spec_openness_after(out_open, err_open, aborted, ev);
            spec_drain_done(out_open, err_open, aborted) ==> spec_drain_done(o1, e1, a1)
        }),
{
}

/// A closed stream stays closed: no event reopens a stream whose
/// end-of-stream has been seen, so end-of-stream observations made at any
/// distance apart still close the drain.
pub proof fn lemma_eof_is_stable(out_open: bool, err_open: bool, aborted: bool, ev: StreamEvent)
    ensures
        ({
            let (o1, e1, a1) = spec_openness_after(out_open, err_open, aborted, ev);
            &&& (!out_open ==> !o1)
            &&& (!err_open ==> !e1)
            &&& (aborted ==> a1)
        }),
{
}

/// The lifecycle of one command invocation, as the execution engine walks
/// it: the command is built, spawned, drained, waited for, and finalized
/// with a log flush. Pre-flight failures end the walk before `Spawned`.
#[derive(Debug, Clone, Copy, PartialEq, Eq, Structural)]
pub enum EnginePhase {
    /// The command object is assembled and nothing has been spawned.
    Built,
    /// The child process exists; no stream observation has been made yet.
    Spawned,
    /// Streams are being drained.
    Streaming {
        /// Whether stdout is still open.
        out_open: bool,
        /// Whether stderr is still open.
        err_open: bool,
        /// Whether a read failure ended the drain early.
        aborted: bool,
    },
    /// The child has been waited for and its exit status is known.
    Exited,
    /// The log is flushed and the result returned; terminal.
    Finalized,
}

/// One step the execution engine takes.
pub enum EngineStep {
    /// Spawn the built command.
    Spawn,
    /// Observe one stream event while draining.
    Stream(StreamEvent),
    /// Wait for the child's exit status.
    Wait,
    /// Flush the build log and return the result.
    Flush,
}

/// The transitions of the invocation lifecycle. `None` means the step is
/// not allowed in that phase; in particular `Wait` is allowed only once the
/// drain is done, so the full output is in hand (or a read failure was
/// accepted) before the exit status is collected.
pub open spec fn spec_engine_next(p: EnginePhase, step: EngineStep) -> Option<EnginePhase> {
    match (p, step) {
        (EnginePhase::Built, EngineStep::Spawn) => Some(EnginePhase::Spawned),
        (EnginePhase::Spawned, EngineStep::Stream(ev)) => {
            let (o, e, a) = spec_openness_after(true, true, false, ev);
            Some(EnginePhase::Streaming { out_open: o, err_open: e, aborted: a })
        },
        (EnginePhase::Streaming { out_open, err_open, aborted }, EngineStep::Stream(ev)) => {
            let (o, e, a) = spec_openness_after(out_open, err_open, aborted, ev);
            Some(EnginePhase::Streaming { out_open: o, err_open: e, aborted: a })
        },
        (EnginePhase::Streaming { out_open, err_open, aborted }, EngineStep::Wait) => {
            if spec_drain_done(out_open, err_open, aborted) {
                Some(EnginePhase::Exited)
            } else {
                None
            }
        },
        (EnginePhase::Exited, EngineStep::Flush) => Some(EnginePhase::Finalized),
        _ => None,
    }
}

/// Walk the invocation lifecycle one step.
pub fn engine_next(p: EnginePhase, step: &EngineStep) -> (r: Option<EnginePhase>)
    ensures
        r == spec_engine_next(p, *step),
{
    match (p, step) {
        (EnginePhase::Built, EngineStep::Spawn) => Some(EnginePhase::Spawned),
        (EnginePhase::Spawned, EngineStep::Stream(ev)) => {
            let (o, e, a) = openness_after_exec(true, true, false, ev);
            Some(EnginePhase::Streaming { out_open: o, err_open: e, aborted: a })
        },
        (EnginePhase::Streaming { out_open, err_open, aborted }, EngineStep::Stream(ev)) => {
            let (o, e, a) = openness_after_exec(out_open, err_open, aborted, ev);
            Some(EnginePhase::Streaming { out_open: o, err_open: e, aborted: a })
        },
        (EnginePhase::Streaming { out_open, err_open, aborted }, EngineStep::Wait) => {
            if aborted || (!out_open && !err_open) {
                Some(EnginePhase::Exited)
            } else {
                None
            }
        },
        (EnginePhase::Exited, EngineStep::Flush) => Some(EnginePhase::Finalized),
        _ => None,
    }
}

/// Stream openness after one event, for the lifecycle walk.
fn openness_after_exec(out_open: bool, err_open: bool, aborted: bool, ev: &StreamEvent) -> (r: (
    bool,
    bool,
    bool,
))
    ensures
        r == spec_openness_after(out_open, err_open, aborted, *ev),
{
    match ev {
        StreamEvent::OutLine(_) => (out_open, err_open, aborted),
        StreamEvent::ErrLine(_) => (out_open, err_open, aborted),
        StreamEvent::OutEof => (false, err_open, aborted),
        StreamEvent::ErrEof => (out_open, false, aborted),
        StreamEvent::ReadError => (out_open, err_open, true),
    }
}

/// The child is waited for only after the drain loop has terminated: a
/// `Wait` step is accepted exactly in a streaming phase whose drain is
/// done, and from any streaming phase, observing both end-of-stream events
/// and then waiting and flushing reaches `Finalized`.
pub proof fn lemma_wait_only_after_drain(p: EnginePhase)
    ensures
        spec_engine_next(p, EngineStep::Wait) is Some <==> (p matches EnginePhase::Streaming {
            out_open,
            err_open,
            aborted,
        } && spec_drain_done(out_open, err_open, aborted)),
        (p matches EnginePhase::Streaming { out_open, err_open, aborted }) ==> ({
            let p1 = spec_engine_next(p, EngineStep::Stream(StreamEvent::OutEof));
            let p2 = spec_engine_next(p1->Some_0, EngineStep::Stream(StreamEvent::ErrEof));
            let p3 = spec_engine_next(p2->Some_0, EngineStep::Wait);
            let p4 = spec_engine_next(p3->Some_0, EngineStep::Flush);
            &&& p1 is Some
            &&& p2 is Some
            &&& p3 == Some(EnginePhase::Exited)
            &&& p4 == Some(EnginePhase::Finalized)
        }),
{
}

} // verus!
