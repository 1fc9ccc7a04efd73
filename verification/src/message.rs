//! The typed outcome messages that concurrent producer tasks post into
//! the mailbox, and the report the consumer gives for each delivery.

use vstd::prelude::*;
use crate::data::SearchResponse;

verus! {

/// Correlation token handed out when a download is dispatched.  It
/// records which result set (by generation) and which position the
/// download belongs to, so that an outcome arriving after the set has
/// been replaced can be recognised as stale.
#[derive(Debug, Clone, Copy, PartialEq, Eq, Structural)]
pub struct Ticket {
    pub generation: u64,
    pub index: usize,
}

/// One outcome of one concurrent operation.
///
/// - `Data`: a search finished and delivers its whole result set.
/// - `Progress`: best-effort progress report of a running download.
/// - `Error`: a failed operation; the ticket is present when the error
///   belongs to one dispatched download and absent for a search failure.
/// - `Done`: a download finished successfully.
#[derive(Debug, Clone)]
pub enum WorkerMessage {
    Data(SearchResponse),
    Progress(Ticket, u32),
    Error(Option<Ticket>, String),
    Done(Ticket),
}

/// What the consumer did with one drained message.
///
/// - `NewData`: the active result set and every per-item state were replaced.
/// - `Reenabled`: a terminal download outcome restored an item to Enabled.
/// - `ProgressUpdated`: a progress field was updated, state unchanged.
/// - `SearchFailed`: a search reported failure; no per-item state involved.
/// - `Stale`: the message referred to no live, dispatched item and was
///   discarded without touching any state.
#[derive(Debug, Clone, Copy, PartialEq, Eq, Structural)]
pub enum DeliveryReport {
    NewData,
    Reenabled,
    ProgressUpdated,
    SearchFailed,
    Stale,
}

/// The failure taxonomy of the two producers.
///
/// - `MissingCredential`: no provider key in the environment; fatal for
///   any search attempt, distinct from a transient failure.
/// - `Transport`: the endpoint was unreachable or answered non-2xx.
/// - `Decode`: the response payload could not be understood.
/// - `ProcessSpawn`: the external download process could not be started.
/// - `ProcessExit`: the external download process exited non-zero.
/// - `StaleIndex`: an outcome referred to a superseded result set; such
///   messages are discarded, never surfaced as failures.
#[derive(Debug, Clone, Copy, PartialEq, Eq, Structural)]
pub enum ErrorKind {
    MissingCredential,
    Transport,
    Decode,
    ProcessSpawn,
    ProcessExit,
    StaleIndex,
}

impl ErrorKind {
    /// A fixed human-readable description of the failure.
    pub fn describe(self) -> (r: String)
        ensures
            self == ErrorKind::MissingCredential ==> r@ == "provider API key is not configured"@,
            self == ErrorKind::Transport ==> r@ == "search request failed"@,
            self == ErrorKind::Decode ==> r@ == "search response could not be decoded"@,
            self == ErrorKind::ProcessSpawn ==> r@ == "download process could not be started"@,
            self == ErrorKind::ProcessExit ==> r@ == "download process exited with failure"@,
            self == ErrorKind::StaleIndex ==> r@ == "outcome referred to a superseded result set"@,
    {
        match self {
            ErrorKind::MissingCredential => "provider API key is not configured".to_owned(),
            ErrorKind::Transport => "search request failed".to_owned(),
            ErrorKind::Decode => "search response could not be decoded".to_owned(),
            ErrorKind::ProcessSpawn => "download process could not be started".to_owned(),
            ErrorKind::ProcessExit => "download process exited with failure".to_owned(),
            ErrorKind::StaleIndex => "outcome referred to a superseded result set".to_owned(),
        }
    }
}

} // verus!
