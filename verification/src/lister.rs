//! Directory listing: the "known games" view is the sequence of names of a
//! directory's immediate children, regenerated wholesale on every refresh.

use vstd::prelude::*;
use crate::error::Error;

verus! {

/// What probing a directory for its immediate children produced. The
/// surrounding process probes the filesystem and hands the outcome over;
/// the decision of what a listing returns for each outcome is made here.
pub enum DirListing {
    /// The path does not resolve to a directory.
    NotADirectory,
    /// The path is a directory but could not be enumerated.
    Unreadable,
    /// The names of the immediate children, in enumeration order, which is
    /// unspecified and not sorted.
    Entries(Vec<String>),
}

/// The known games under one root: the names of its immediate children.
/// A path that is no directory is reported as such; one that could not be
/// enumerated is reported as not found.
pub fn list_games(listing: DirListing) -> (r: Result<Vec<String>, Error>)
    ensures
        match listing {
            DirListing::Entries(names) => r == Ok::<Vec<String>, Error>(names),
            DirListing::NotADirectory => r == Err::<Vec<String>, Error>(Error::NotADirectory),
            DirListing::Unreadable => r == Err::<Vec<String>, Error>(Error::NotFound),
        },
{
    match listing {
        DirListing::Entries(names) => Ok(names),
        DirListing::NotADirectory => Err(Error::NotADirectory),
        DirListing::Unreadable => Err(Error::NotFound),
    }
}

} // verus!
