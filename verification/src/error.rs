//! The failure taxonomy shared by every operation of the library.

use vstd::prelude::*;

verus! {

/// Everything that can go wrong while listing, archiving, restoring or
/// watching a saved-games tree.
#[derive(Clone, Copy, Debug, PartialEq, Eq, Structural)]
pub enum Error {
    /// A directory or file is absent, or a listing could not be enumerated.
    NotFound,
    /// A listing target resolves to something other than a directory.
    NotADirectory,
    /// Neither the control file nor any fallback turn file yielded a
    /// readable byte at the expected offset.
    TurnNumberUnavailable,
    /// A file-level read or write error during archive or restore; the copy
    /// loop aborts immediately and the partial result persists on disk.
    CopyFailure,
    /// The watcher could not attach to its root path; fatal to that watcher.
    WatchSubscriptionFailure,
    /// A background task could not hand its completion result back to the
    /// interactive context.
    CommandDeliveryFailure,
    /// An archive name carries no turn suffix, so no game name can be
    /// recovered from it.
    ArchiveNameInvalid,
}

impl Error {
    /// A short human-readable description of the failure.
    pub fn message(&self) -> (r: &'static str)
        ensures
            r@ == match self {
                Error::NotFound => "not found"@,
                Error::NotADirectory => "not a directory"@,
                Error::TurnNumberUnavailable => "turn number not found"@,
                Error::CopyFailure => "failed to copy a file"@,
                Error::WatchSubscriptionFailure => "failed to watch filesystem"@,
                Error::CommandDeliveryFailure => "failed to deliver a result"@,
                Error::ArchiveNameInvalid => "archive name has no turn suffix"@,
            },
    {
        match self {
            Error::NotFound => "not found",
            Error::NotADirectory => "not a directory",
            Error::TurnNumberUnavailable => "turn number not found",
            Error::CopyFailure => "failed to copy a file",
            Error::WatchSubscriptionFailure => "failed to watch filesystem",
            Error::CommandDeliveryFailure => "failed to deliver a result",
            Error::ArchiveNameInvalid => "archive name has no turn suffix",
        }
    }
}

} // verus!
