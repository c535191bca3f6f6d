//! Decisions of the market-data connection loop: what each received frame
//! leads to, and how errors are reported.

use vstd::prelude::*;

verus! {

/// What the reader got from the socket.
#[derive(Debug, Clone, Copy, PartialEq, Eq, Structural)]
pub enum FrameKind {
    /// A text frame.
    Text,
    /// A close frame.
    Close,
    /// The stream ended.
    End,
    /// Any other frame (binary, ping, pong).
    Other,
    /// Reading failed.
    ReadError,
}

/// What the connection loop does with a frame.
#[derive(Debug, Clone, Copy, PartialEq, Eq, Structural)]
pub enum FrameAction {
    /// Parse the text as a server message and report it (or the parse error).
    ParseMessage,
    /// Report that the connection is gone and reconnect.
    Disconnect,
    /// Skip the frame.
    Ignore,
    /// Report the read error and reconnect.
    ReportError,
}

/// Where an error of the connection loop came from.
#[derive(Debug, Clone, Copy, PartialEq, Eq, Structural)]
pub enum WsErrorSource {
    Connect,
    Read,
    Parse,
}

pub open spec fn spec_frame_action(kind: FrameKind) -> FrameAction {
    match kind {
        FrameKind::Text => FrameAction::ParseMessage,
        FrameKind::Close => FrameAction::Disconnect,
        FrameKind::End => FrameAction::Disconnect,
        FrameKind::Other => FrameAction::Ignore,
        FrameKind::ReadError => FrameAction::ReportError,
    }
}

/// The action for a received frame.
pub fn frame_action(kind: FrameKind) -> (a: FrameAction)
    ensures
        a == spec_frame_action(kind),
{
    match kind {
        FrameKind::Text => FrameAction::ParseMessage,
        FrameKind::Close => FrameAction::Disconnect,
        FrameKind::End => FrameAction::Disconnect,
        FrameKind::Other => FrameAction::Ignore,
        FrameKind::ReadError => FrameAction::ReportError,
    }
}

/// Whether the loop goes on reading from the same connection after an action.
pub fn keeps_reading(action: FrameAction) -> (b: bool)
    ensures
        b == (action == FrameAction::ParseMessage || action == FrameAction::Ignore),
{
    match action {
        FrameAction::ParseMessage => true,
        FrameAction::Ignore => true,
        FrameAction::Disconnect => false,
        FrameAction::ReportError => false,
    }
}

/// The prefix that names where an error came from.
pub open spec fn spec_error_prefix(source: WsErrorSource) -> Seq<char> {
    match source {
        WsErrorSource::Connect => "Connect: "@,
        WsErrorSource::Read => "WS: "@,
        WsErrorSource::Parse => "Parse: "@,
    }
}

/// The text reported for an error: where it came from, then its description.
pub fn ws_error_text(source: WsErrorSource, detail: &str) -> (s: String)
    ensures
        s@ == spec_error_prefix(source) + detail@,
{
    let prefix = match source {
        WsErrorSource::Connect => "Connect: ",
        WsErrorSource::Read => "WS: ",
        WsErrorSource::Parse => "Parse: ",
    };
    String::from_str(prefix).concat(detail)
}

/// A connection is read until it closes, ends or fails; text frames and
/// other frames never end it.
pub proof fn lemma_reading_ends_exactly_on_close_end_or_error(kind: FrameKind)
    ensures
        (spec_frame_action(kind) == FrameAction::ParseMessage || spec_frame_action(kind)
            == FrameAction::Ignore) <==> (kind == FrameKind::Text || kind == FrameKind::Other),
{
}

} // verus!
