//! Forwarding of the helper's output and lifecycle to the application.

use vstd::prelude::*;
use vstd::utf8::{decode_utf8, valid_utf8};

verus! {

/// What the stream of a spawned helper yields.
#[derive(Debug, Clone, PartialEq, Eq)]
pub enum ProcessEvent {
    /// A chunk that the helper wrote to its standard output.
    Stdout(Vec<u8>),
    /// A chunk that the helper wrote to its standard error.
    Stderr(Vec<u8>),
    /// The helper has exited, with this code if it had one.
    Terminated(Option<i32>),
    /// Anything else; it is not forwarded.
    Other,
}

/// Mathematical model of a [`ProcessEvent`].
pub enum ProcessEventView {
    Stdout(Seq<u8>),
    Stderr(Seq<u8>),
    Terminated(Option<i32>),
    Other,
}

impl View for ProcessEvent {
    type V = ProcessEventView;

    open spec fn view(&self) -> ProcessEventView {
        match self {
            ProcessEvent::Stdout(bytes) => ProcessEventView::Stdout(bytes@),
            ProcessEvent::Stderr(bytes) => ProcessEventView::Stderr(bytes@),
            ProcessEvent::Terminated(code) => ProcessEventView::Terminated(*code),
            ProcessEvent::Other => ProcessEventView::Other,
        }
    }
}

/// A notification for the application, with its payload.
#[derive(Debug, Clone, PartialEq, Eq)]
pub enum SinkEvent {
    /// Text from the helper's standard output.
    Stdout(String),
    /// Text from the helper's standard error.
    Stderr(String),
    /// The helper has exited, with this code if it had one.
    Terminated(Option<i32>),
    /// The helper at this address is ready to serve.
    Ready(String),
}

/// Mathematical model of a [`SinkEvent`].
pub enum SinkEventView {
    Stdout(Seq<char>),
    Stderr(Seq<char>),
    Terminated(Option<i32>),
    Ready(Seq<char>),
}

impl View for SinkEvent {
    type V = SinkEventView;

    open spec fn view(&self) -> SinkEventView {
        match self {
            SinkEvent::Stdout(text) => SinkEventView::Stdout(text@),
            SinkEvent::Stderr(text) => SinkEventView::Stderr(text@),
            SinkEvent::Terminated(code) => SinkEventView::Terminated(*code),
            SinkEvent::Ready(addr) => SinkEventView::Ready(addr@),
        }
    }
}

impl SinkEventView {
    /// The name of the channel on which this notification is sent.
    pub open spec fn channel(self) -> Seq<char> {
        match self {
            SinkEventView::Stdout(_) => "sync://stdout"@,
            SinkEventView::Stderr(_) => "sync://stderr"@,
            SinkEventView::Terminated(_) => "sync://terminated"@,
            SinkEventView::Ready(_) => "sync://ready"@,
        }
    }
}

impl SinkEvent {
    /// The name of the channel on which this notification is sent.
    pub fn channel(&self) -> (name: &'static str)
        ensures
            name@ == self@.channel(),
    {
        match self {
            SinkEvent::Stdout(_) => "sync://stdout",
            SinkEvent::Stderr(_) => "sync://stderr",
            SinkEvent::Terminated(_) => "sync://terminated",
            SinkEvent::Ready(_) => "sync://ready",
        }
    }
}

/// What lossy decoding makes of bytes that are not valid UTF-8: the decoded
/// characters, with U+FFFD in place of every invalid sequence.
pub uninterp spec fn utf8_lossy(bytes: Seq<u8>) -> Seq<char>;

/// The text of an output chunk: its decoding where the bytes are valid
/// UTF-8, and the lossy decoding where they are not.
pub open spec fn chunk_text(bytes: Seq<u8>) -> Seq<char> {
    if valid_utf8(bytes) {
        decode_utf8(bytes)
    } else {
        utf8_lossy(bytes)
    }
}

/// Calls `String::from_utf8_lossy` and owns the result.
///
/// Trusted: valid UTF-8 comes back as the text it encodes, and what comes
/// back for other bytes depends on the bytes alone.
#[verifier::external_body]
fn decode_lossy(bytes: &Vec<u8>) -> (text: String)
    ensures
        text@ == (if valid_utf8(bytes@) {
            decode_utf8(bytes@)
        } else {
            utf8_lossy(bytes@)
        }),
{
    String::from_utf8_lossy(bytes).into_owned()
}

/// What the application is told about a process event, if anything.
pub open spec fn forwarded(event: ProcessEventView) -> Option<SinkEventView> {
    match event {
        ProcessEventView::Stdout(bytes) => Some(SinkEventView::Stdout(chunk_text(bytes))),
        ProcessEventView::Stderr(bytes) => Some(SinkEventView::Stderr(chunk_text(bytes))),
        ProcessEventView::Terminated(code) => Some(SinkEventView::Terminated(code)),
        ProcessEventView::Other => None,
    }
}

/// The views of an optional notification.
pub open spec fn sink_view(event: Option<SinkEvent>) -> Option<SinkEventView> {
    match event {
        Some(e) => Some(e@),
        None => None,
    }
}

/// Turns one event of the helper's stream into the notification to send.
///
/// Output chunks are decoded lossily and go out as text; the exit goes out
/// with its code; every other event is dropped.
pub fn forward_event(event: &ProcessEvent) -> (out: Option<SinkEvent>)
    ensures
        sink_view(out) == forwarded(event@),
{
    match event {
        ProcessEvent::Stdout(bytes) => Some(SinkEvent::Stdout(decode_lossy(bytes))),
        ProcessEvent::Stderr(bytes) => Some(SinkEvent::Stderr(decode_lossy(bytes))),
        ProcessEvent::Terminated(code) => Some(SinkEvent::Terminated(*code)),
        ProcessEvent::Other => None,
    }
}

} // verus!
