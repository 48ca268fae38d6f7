//! How each output event of the worker is reported, in the order produced.
//!
//! The host's background task receives the events of one worker and hands
//! each to `route`, then emits the record on the sink it names; the task ends
//! once `ends_stream` holds. `pump` does the same for a batch of events.

use vstd::prelude::*;
use crate::decimal::{push_signed_decimal, signed_decimal_of};

verus! {

/// The text that lossy UTF-8 decoding gives for some bytes: each invalid
/// sequence becomes U+FFFD.
pub uninterp spec fn lossy_text(b: Seq<u8>) -> Seq<char>;

/// Relies on `String::from_utf8_lossy`: the text depends on the bytes alone.
#[verifier::external_body]
fn decode_lossy(b: &Vec<u8>) -> (r: String)
    ensures
        r@ == lossy_text(b@),
{
    String::from_utf8_lossy(b.as_slice()).into_owned()
}

/// How the worker's process ended: its exit code and, on POSIX systems, the
/// signal that ended it.
#[derive(Clone, Copy, Debug, PartialEq, Eq, Structural)]
pub struct ExitStatus {
    pub code: Option<i32>,
    pub signal: Option<i32>,
}

/// One event of the worker's output channel.
pub enum OutputEvent {
    /// A line on standard output, with its line ending.
    Stdout(Vec<u8>),
    /// A line on standard error, with its line ending.
    Stderr(Vec<u8>),
    /// An error of the process, described.
    Error(String),
    /// The process ended; no event follows.
    Terminated(ExitStatus),
}

/// One of the worker's two output streams.
#[derive(Clone, Copy, Debug, PartialEq, Eq, Structural)]
pub enum Stream {
    Stdout,
    Stderr,
}

/// Where a record is emitted.
#[derive(Clone, Copy, Debug, PartialEq, Eq, Structural)]
pub enum Sink {
    /// The informational log.
    Info,
    /// The diagnostic log.
    Diagnostic,
}

/// A text to emit on a sink.
pub struct LogRecord {
    pub sink: Sink,
    pub text: String,
}

impl View for LogRecord {
    type V = (Sink, Seq<char>);

    open spec fn view(&self) -> (Sink, Seq<char>) {
        (self.sink, self.text@)
    }
}

/// The tag put before a line of each stream.
pub open spec fn stream_tag(s: Stream) -> Seq<char> {
    match s {
        Stream::Stdout => "API: "@,
        Stream::Stderr => "API Info: "@,
    }
}

/// An optional integer as `Some(<n>)` or `None`.
pub open spec fn option_text(o: Option<i32>) -> Seq<char> {
    match o {
        Some(i) => "Some("@ + signed_decimal_of(i as int) + ")"@,
        None => "None"@,
    }
}

/// An exit status as the shell plugin's `TerminatedPayload` prints itself:
/// `TerminatedPayload { code: <code>, signal: <signal> }`.
pub open spec fn status_text(st: ExitStatus) -> Seq<char> {
    "TerminatedPayload { code: "@ + option_text(st.code) + ", signal: "@ + option_text(
        st.signal,
    ) + " }"@
}

/// The record of a line, given its decoded text.
pub open spec fn line_record_of(s: Stream, text: Seq<char>) -> (Sink, Seq<char>) {
    (Sink::Info, stream_tag(s) + text)
}

/// The record of an event.
pub open spec fn record_of(e: OutputEvent) -> (Sink, Seq<char>) {
    match e {
        OutputEvent::Stdout(b) => line_record_of(Stream::Stdout, lossy_text(b@)),
        OutputEvent::Stderr(b) => line_record_of(Stream::Stderr, lossy_text(b@)),
        OutputEvent::Error(m) => (Sink::Diagnostic, "API Process Error: "@ + m@),
        OutputEvent::Terminated(st) => (
            Sink::Diagnostic,
            "API Process Terminated with status: "@ + status_text(st),
        ),
    }
}

fn push_option(s: &mut String, o: Option<i32>)
    ensures
        final(s)@ == old(s)@ + option_text(o),
{
    let ghost s0 = s@;
    match o {
        Some(i) => {
            s.append("Some(");
            push_signed_decimal(s, i);
            s.append(")");
            assert(s@ =~= s0 + option_text(o));
        },
        None => {
            s.append("None");
        },
    }
}

/// The text of an exit status.
pub fn status_string(st: ExitStatus) -> (r: String)
    ensures
        r@ == status_text(st),
{
    let mut s = String::from_str("TerminatedPayload { code: ");
    push_option(&mut s, st.code);
    s.append(", signal: ");
    push_option(&mut s, st.signal);
    s.append(" }");
    assert(s@ =~= status_text(st));
    s
}

/// The record of a line of `stream` whose decoded text is `text`.
pub fn line_record(stream: Stream, text: &str) -> (r: LogRecord)
    ensures
        r@ == line_record_of(stream, text@),
{
    let mut t = match stream {
        Stream::Stdout => String::from_str("API: "),
        Stream::Stderr => String::from_str("API Info: "),
    };
    t.append(text);
    LogRecord { sink: Sink::Info, text: t }
}

/// The record that reports an event.
pub fn route(e: &OutputEvent) -> (r: LogRecord)
    ensures
        r@ == record_of(*e),
{
    match e {
        OutputEvent::Stdout(b) => {
            let text = decode_lossy(b);
            line_record(Stream::Stdout, text.as_str())
        },
        OutputEvent::Stderr(b) => {
            let text = decode_lossy(b);
            line_record(Stream::Stderr, text.as_str())
        },
        OutputEvent::Error(m) => {
            let mut t = String::from_str("API Process Error: ");
            t.append(m.as_str());
            LogRecord { sink: Sink::Diagnostic, text: t }
        },
        OutputEvent::Terminated(st) => {
            let mut t = String::from_str("API Process Terminated with status: ");
            let tail = status_string(*st);
            t.append(tail.as_str());
            LogRecord { sink: Sink::Diagnostic, text: t }
        },
    }
}

/// Whether the channel closes after this event.
pub fn ends_stream(e: &OutputEvent) -> (r: bool)
    ensures
        r == e is Terminated,
{
    match e {
        OutputEvent::Terminated(_) => true,
        _ => false,
    }
}

/// The records of a batch of events, in order: every event is reported, up
/// to and including the first `Terminated`, after which nothing is.
pub fn pump(events: &Vec<OutputEvent>) -> (r: Vec<LogRecord>)
    ensures
        r.len() <= events.len(),
        forall|i: int| 0 <= i < r.len() ==> r[i]@ == record_of(events[i]),
        forall|i: int| 0 <= i < r.len() - 1 ==> !(events[i] is Terminated),
        r.len() == events.len() || (r.len() > 0 && events[r.len() - 1] is Terminated),
{
    let mut out: Vec<LogRecord> = Vec::new();
    let mut i: usize = 0;
    let mut done = false;
    while i < events.len() && !done
        invariant
            i <= events.len(),
            out.len() == i,
            forall|j: int| 0 <= j < i ==> out[j]@ == record_of(events[j]),
            forall|j: int| 0 <= j < i - 1 ==> !(events[j] is Terminated),
            done <==> (i > 0 && events[i - 1] is Terminated),
        decreases events.len() - i,
    {
        let rec = route(&events[i]);
        done = ends_stream(&events[i]);
        out.push(rec);
        i = i + 1;
    }
    out
}

} // verus!
