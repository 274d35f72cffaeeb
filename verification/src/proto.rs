//! Structured commands and events at the codec boundary.
//!
//! The wire grammar itself is a collaborator: an unverified codec turns each
//! inbound command into one protocol line and each engine output line into
//! one of these events.  The gateway reasons only about the structured forms.

use vstd::prelude::*;
use crate::options::UciOption;
use crate::options::UciOptionName;

verus! {

/// Audit identifier carried with every command; confers no authorization.
#[derive(Clone, Copy, PartialEq, Eq, Structural, Debug)]
pub struct Session(pub u64);

/// The error kinds surfaced by the gateway.
///
/// `TransportError` and `ProtocolDecodeError` are fatal: the instance refuses
/// all further work.  `ResourceBusy` and `InvalidOptionValue` are recoverable.
#[derive(Clone, Copy, PartialEq, Eq, Structural, Debug)]
pub enum EngineError {
    TransportError,
    ProtocolDecodeError,
    ResourceBusy,
    InvalidOptionValue,
}

/// Inbound commands, constructed by callers and screened by the gateway.
#[derive(Debug, Clone, PartialEq, Eq)]
pub enum UciIn {
    /// Handshake start: the engine re-announces identity and options.
    Uci,
    /// Readiness probe: requests an acknowledgment once queued work drained.
    Isready,
    /// Configuration set for one named option.
    Setoption { name: UciOptionName, value: Option<String> },
    /// Clean boundary between logical units of work.
    Ucinewgame,
    /// Search start; the engine is busy until it reports a result.
    Go { params: Option<String> },
    /// Interrupt request for a running search.
    Stop,
    /// Ponder-continue; converts a speculative search into a normal one.
    Ponderhit,
}

/// Outbound events, decoded from engine output lines.
#[derive(Debug, Clone, PartialEq, Eq)]
pub enum UciOut {
    /// Identity announcement.
    IdName(String),
    /// Handshake complete.
    Uciok,
    /// Readiness acknowledgment.
    Readyok,
    /// Search result; clears the busy flag.
    Bestmove { mv: Option<String> },
    /// Advertisement of one configurable option.
    OptionDecl { name: UciOptionName, option: UciOption },
    /// Progress report; skipped as noise when no interesting field is set.
    Info { depth: Option<u32>, pv: Option<String>, score: Option<i64>, string: Option<String> },
}

/// One read outcome at the stream boundary, handed in by the shell.
#[derive(Debug, Clone, PartialEq, Eq)]
pub enum RecvInput {
    /// Zero-length read: the output stream closed.
    Closed,
    /// A line the codec could not parse.
    Malformed,
    /// A decoded event.
    Event(UciOut),
}

} // verus!
