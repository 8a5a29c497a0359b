//! The output pump: what becomes of each thing that the worker's output
//! streams deliver.
//!
//! The caller reads the streams and hands every event to
//! [`PumpState::on_event`], which says what to log and whether the pump is
//! done. Lines of standard output are logged as information, lines of
//! standard error as errors. The pump is done when both streams are closed.

use crate::fault::Fault;
use crate::record::{LogRecord, Severity};
use crate::worker::WorkerStatus;
use vstd::prelude::*;
use vstd::utf8::*;

verus! {

/// The two output streams of the worker.
#[derive(Clone, Copy, Debug, PartialEq, Eq)]
pub enum StreamKind {
    Stdout,
    Stderr,
}

/// One line that the worker wrote.
#[derive(Clone, Debug, PartialEq, Eq)]
pub struct OutputEvent {
    pub stream: StreamKind,
    /// The line, without the white space around it.
    pub text: String,
    /// When the line was read, in milliseconds on the caller's clock.
    pub emitted_at: u64,
}

/// What the streams of the worker deliver.
#[derive(Clone, Debug, PartialEq, Eq)]
pub enum PumpEvent {
    /// One line of output, as the bytes that were read.
    Line { stream: StreamKind, bytes: Vec<u8> },
    /// Reading this stream failed.
    ReadError { stream: StreamKind, message: String },
    /// This stream reached its end.
    Closed { stream: StreamKind },
    /// The process ended, with this exit code where one was reported.
    Terminated { code: Option<i32> },
    /// Anything else, as a text that describes it.
    Other { description: String },
}

/// What the pump answers to one event.
#[derive(Clone, Debug, PartialEq, Eq)]
pub struct PumpStep {
    /// What to write to the log, if anything.
    pub record: Option<LogRecord>,
    /// Whether both streams are closed now.
    pub finished: bool,
}

/// The streams of one worker that are still open, and the exit code that was
/// reported.
#[derive(Clone, Copy, Debug, PartialEq, Eq)]
pub struct PumpState {
    pub stdout_open: bool,
    pub stderr_open: bool,
    pub exit_code: Option<i32>,
}

/// A text without its leading and trailing white space.
pub uninterp spec fn trimmed(text: Seq<char>) -> Seq<char>;

/// Decodes bytes as UTF-8 with `String::from_utf8`: the text that the bytes
/// encode, and nothing where they are not valid UTF-8.
#[verifier::external_body]
fn decode_line(bytes: Vec<u8>) -> (r: Option<String>)
    ensures
        match r {
            Some(text) => valid_utf8(bytes@) && text@ == decode_utf8(bytes@),
            None => !valid_utf8(bytes@),
        },
{
    String::from_utf8(bytes).ok()
}

/// Removes the white space around a text with `str::trim`. The contract only
/// names the result.
#[verifier::external_body]
fn trim_text(text: &str) -> (r: String)
    ensures
        r@ == trimmed(text@),
{
    text.trim().to_string()
}

/// The severity at which a line of a stream is logged.
pub open spec fn stream_severity(stream: StreamKind) -> Severity {
    match stream {
        StreamKind::Stdout => Severity::Info,
        StreamKind::Stderr => Severity::Error,
    }
}

/// What stands before a line of a stream in the log.
pub open spec fn stream_tag(stream: StreamKind) -> Seq<char> {
    match stream {
        StreamKind::Stdout => "[ocr_mlx stdout] "@,
        StreamKind::Stderr => "[ocr_mlx stderr] "@,
    }
}

/// What stands before a read error in the log.
pub open spec fn error_tag(stream: StreamKind) -> Seq<char> {
    match stream {
        StreamKind::Stdout => "[ocr_mlx stdout] read error: "@,
        StreamKind::Stderr => "[ocr_mlx stderr] read error: "@,
    }
}

/// What stands before the description of any other event in the log.
pub open spec fn other_tag() -> Seq<char> {
    "[ocr_mlx] Other event: "@
}

impl StreamKind {
    pub fn severity(self) -> (s: Severity)
        ensures
            s == stream_severity(self),
    {
        match self {
            StreamKind::Stdout => Severity::Info,
            StreamKind::Stderr => Severity::Error,
        }
    }
}

impl OutputEvent {
    /// The event of one line of a stream: `None` where the bytes are not valid
    /// UTF-8, else the decoded line without the white space around it.
    pub fn from_line(stream: StreamKind, bytes: Vec<u8>, now: u64) -> (r: Option<OutputEvent>)
        ensures
            match r {
                Some(event) => {
                    &&& valid_utf8(bytes@)
                    &&& event.stream == stream
                    &&& event.text@ == trimmed(decode_utf8(bytes@))
                    &&& event.emitted_at == now
                },
                None => !valid_utf8(bytes@),
            },
    {
        match decode_line(bytes) {
            Some(line) => Some(
                OutputEvent { stream, text: trim_text(line.as_str()), emitted_at: now },
            ),
            None => None,
        }
    }

    /// The log record of the event: the tag of its stream, then its text, at
    /// the severity of its stream.
    pub fn to_record(&self) -> (record: LogRecord)
        ensures
            record@ == (stream_severity(self.stream), stream_tag(self.stream) + self.text@),
    {
        let tag = match self.stream {
            StreamKind::Stdout => "[ocr_mlx stdout] ",
            StreamKind::Stderr => "[ocr_mlx stderr] ",
        };
        LogRecord::tagged(self.stream.severity(), tag, self.text.as_str())
    }
}

impl PumpState {
    pub open spec fn is_open(self, stream: StreamKind) -> bool {
        match stream {
            StreamKind::Stdout => self.stdout_open,
            StreamKind::Stderr => self.stderr_open,
        }
    }

    /// The pump is done when both streams are closed.
    pub open spec fn spec_finished(self) -> bool {
        !self.stdout_open && !self.stderr_open
    }

    /// The state with one stream closed.
    pub open spec fn close(self, stream: StreamKind) -> PumpState {
        match stream {
            StreamKind::Stdout => PumpState { stdout_open: false, ..self },
            StreamKind::Stderr => PumpState { stderr_open: false, ..self },
        }
    }

    /// The state after an event: a read error or the end of a stream closes
    /// that stream and leaves the other as it is; the end of the process
    /// records the exit code; nothing else changes the state.
    pub open spec fn after(self, event: PumpEvent) -> PumpState {
        match event {
            PumpEvent::ReadError { stream, .. } => self.close(stream),
            PumpEvent::Closed { stream } => self.close(stream),
            PumpEvent::Terminated { code } => PumpState { exit_code: code, ..self },
            _ => self,
        }
    }

    /// What an event puts into the log.
    ///
    /// A line of a stream that is open and holds valid UTF-8 is logged with the
    /// tag and at the severity of its stream. A read error on a stream that is
    /// open is logged as an error. Any other event is logged for debugging.
    /// Nothing else is logged.
    pub open spec fn record_for(self, event: PumpEvent) -> Option<(Severity, Seq<char>)> {
        match event {
            PumpEvent::Line { stream, bytes } => if self.is_open(stream) && valid_utf8(bytes@) {
                Some((stream_severity(stream), stream_tag(stream) + trimmed(decode_utf8(bytes@))))
            } else {
                None
            },
            PumpEvent::ReadError { stream, message } => if self.is_open(stream) {
                Some((Severity::Error, error_tag(stream) + message@))
            } else {
                None
            },
            PumpEvent::Other { description } => Some((Severity::Debug, other_tag() + description@)),
            _ => None,
        }
    }

    /// The state of the pump of a worker that was just spawned: both streams
    /// open, no exit code.
    pub fn new() -> (s: PumpState)
        ensures
            s == (PumpState { stdout_open: true, stderr_open: true, exit_code: None }),
    {
        PumpState { stdout_open: true, stderr_open: true, exit_code: None }
    }

    #[verifier::when_used_as_spec(spec_finished)]
    pub fn finished(self) -> (r: bool)
        ensures
            r == self.spec_finished(),
    {
        !self.stdout_open && !self.stderr_open
    }

    /// The status that the worker has once the pump is done: it ended by
    /// itself, with the exit code that was reported.
    pub fn exit_status(self) -> (s: WorkerStatus)
        ensures
            s == WorkerStatus::Exited(self.exit_code),
    {
        WorkerStatus::Exited(self.exit_code)
    }

    /// Whether what belongs to a worker with this status may be released:
    /// the process has ended and both streams were read to their end.
    pub fn may_release(self, status: WorkerStatus) -> (r: bool)
        ensures
            r == (status.spec_is_terminal() && self.spec_finished()),
    {
        status.is_terminal() && self.finished()
    }

    fn stream_is_open(&self, stream: StreamKind) -> (r: bool)
        ensures
            r == self.is_open(stream),
    {
        match stream {
            StreamKind::Stdout => self.stdout_open,
            StreamKind::Stderr => self.stderr_open,
        }
    }

    fn close_stream(&mut self, stream: StreamKind)
        ensures
            *final(self) == old(self).close(stream),
    {
        match stream {
            StreamKind::Stdout => {
                self.stdout_open = false;
            },
            StreamKind::Stderr => {
                self.stderr_open = false;
            },
        }
    }

    /// Takes one event of the worker's streams, read at `now`: says what to
    /// log for it and whether the pump is done after it.
    pub fn on_event(&mut self, event: PumpEvent, now: u64) -> (step: PumpStep)
        ensures
            *final(self) == old(self).after(event),
            step.finished == final(self).spec_finished(),
            match step.record {
                Some(record) => old(self).record_for(event) == Some(record@),
                None => old(self).record_for(event) is None,
            },
    {
        let record = match event {
            PumpEvent::Line { stream, bytes } => {
                if self.stream_is_open(stream) {
                    match OutputEvent::from_line(stream, bytes, now) {
                        Some(line) => Some(line.to_record()),
                        None => None,
                    }
                } else {
                    None
                }
            },
            PumpEvent::ReadError { stream, message } => {
                let was_open = self.stream_is_open(stream);
                self.close_stream(stream);
                if was_open {
                    let tag = match stream {
                        StreamKind::Stdout => "[ocr_mlx stdout] read error: ",
                        StreamKind::Stderr => "[ocr_mlx stderr] read error: ",
                    };
                    Some(LogRecord::tagged(Fault::Stream.severity(), tag, message.as_str()))
                } else {
                    None
                }
            },
            PumpEvent::Closed { stream } => {
                self.close_stream(stream);
                None
            },
            PumpEvent::Terminated { code } => {
                self.exit_code = code;
                None
            },
            PumpEvent::Other { description } => {
                Some(LogRecord::tagged(Severity::Debug, "[ocr_mlx] Other event: ", description.as_str()))
            },
        };
        PumpStep { record, finished: self.finished() }
    }
}

/// A stream that is closed stays closed, and a pump that is done stays done,
/// whatever comes after.
pub proof fn law_streams_only_close(state: PumpState, event: PumpEvent, stream: StreamKind)
    ensures
        !state.is_open(stream) ==> !state.after(event).is_open(stream),
        state.spec_finished() ==> state.after(event).spec_finished(),
{
}

/// A read error on one stream ends the pump for that stream only: the other
/// stream and the exit code stay as they were.
pub proof fn law_read_error_ends_one_stream(state: PumpState, stream: StreamKind, message: String)
    ensures
        ({
            let after = state.after(PumpEvent::ReadError { stream, message });
            let other = match stream {
                StreamKind::Stdout => StreamKind::Stderr,
                StreamKind::Stderr => StreamKind::Stdout,
            };
            &&& !after.is_open(stream)
            &&& after.is_open(other) == state.is_open(other)
            &&& after.exit_code == state.exit_code
        }),
{
}

/// The pump is done exactly when both streams have been closed: no line and
/// no other event ends it.
pub proof fn law_pump_ends_with_streams(state: PumpState, event: PumpEvent)
    ensures
        state.after(event).spec_finished() <==> (!state.after(event).is_open(StreamKind::Stdout)
            && !state.after(event).is_open(StreamKind::Stderr)),
        (event is Line || event is Other || event is Terminated) ==> (state.after(
            event,
        ).spec_finished() == state.spec_finished()),
{
}

} // verus!
