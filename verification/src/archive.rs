//! Archiving and restoring save directories.
//!
//! Archiving stores a flat copy of a save directory under a turn-stamped
//! name in the archive root; restoring replaces the live save directory
//! with a flat copy of an archive entry. Both are planned here over the
//! directory's entries and executed by the surrounding process.

use vstd::prelude::*;
use crate::copier::{copies_match, plan_flat_copy, spec_file_names, CopyPair, EntryInfo};
use crate::error::Error;
use crate::namer::{compose, decompose, spec_compose, spec_decompose};
use crate::paths::{
    get_file_path_from_name, last_path_component, lemma_join_keeps_dir_prefix, spec_join,
    spec_last_component,
};

verus! {

/// The plan that archives one save directory. Executing it means: create
/// the archive path, and its parents, if absent — re-archiving the same
/// turn is therefore an idempotent directory creation — then perform the
/// copies in order, overwriting silently, and stop at the first failure.
#[derive(Debug)]
pub struct ArchivePlan {
    /// The turn-stamped directory name the snapshot is stored under.
    pub archive_name: String,
    /// The full path of the archive entry, under the archive root.
    pub archive_path: String,
    /// The file copies to perform, in enumeration order of the source.
    pub copies: Vec<CopyPair>,
}

/// The plan that restores one archive entry. Executing it means: delete
/// `restore_path` recursively when it already exists, recreate it, then
/// perform the copies in order and stop at the first failure — overwrite
/// semantics, not merge: no prior file of the live directory survives.
#[derive(Debug)]
pub struct RestorePlan {
    /// The live game name, recovered from the archive entry's name.
    pub game_name: String,
    /// The full path of the live save directory to replace.
    pub restore_path: String,
    /// The file copies to perform, in enumeration order of the archive.
    pub copies: Vec<CopyPair>,
}

/// Plans the archiving of the save directory at `save_file_path`, whose
/// current turn is `turn_number` and whose immediate children are
/// `entries`, into the archive root `archive_dir_path`. The archive entry
/// is named after the directory's own name and the turn, and receives a
/// flat copy of every regular file; the save directory itself is only
/// read. Fails when the path has no final component to name the game by.
pub fn archive_turn_files(
    save_file_path: &str,
    archive_dir_path: &str,
    turn_number: u8,
    entries: &Vec<EntryInfo>,
) -> (r: Result<ArchivePlan, Error>)
    ensures
        match spec_last_component(save_file_path@) {
            Some(game) => match r {
                Ok(plan) => {
                    &&& plan.archive_name@ == spec_compose(game, turn_number as nat)
                    &&& plan.archive_path@ == spec_join(archive_dir_path@, plan.archive_name@)
                    &&& copies_match(
                        plan.copies@,
                        save_file_path@,
                        plan.archive_path@,
                        spec_file_names(entries@),
                    )
                },
                Err(_) => false,
            },
            None => r == Err::<ArchivePlan, Error>(Error::NotFound),
        },
{
    match last_path_component(save_file_path) {
        None => Err(Error::NotFound),
        Some(game_name) => {
            let archive_name = compose(game_name.as_str(), turn_number);
            let archive_path = get_file_path_from_name(archive_name.as_str(), archive_dir_path);
            let copies = plan_flat_copy(save_file_path, archive_path.as_str(), entries);
            Ok(ArchivePlan { archive_name, archive_path, copies })
        },
    }
}

/// Plans the restoration of the archive entry at `archive_file_path`,
/// whose immediate children are `entries`, into the saved-games root
/// `saved_games_dir_path`. The live game name is the entry's name with its
/// trailing turn marker stripped at the rightmost hyphen; the live
/// directory is replaced wholesale by a flat copy of the archived files.
/// Fails when the path has no final component, and, rather than silently
/// doing nothing, when that component carries no hyphen so no game name
/// can be recovered from it.
pub fn restore_turn_files(
    archive_file_path: &str,
    saved_games_dir_path: &str,
    entries: &Vec<EntryInfo>,
) -> (r: Result<RestorePlan, Error>)
    ensures
        match spec_last_component(archive_file_path@) {
            Some(entry_name) => match spec_decompose(entry_name) {
                Some(parts) => match r {
                    Ok(plan) => {
                        &&& plan.game_name@ == parts.0
                        &&& plan.restore_path@ == spec_join(saved_games_dir_path@, parts.0)
                        &&& copies_match(
                            plan.copies@,
                            archive_file_path@,
                            plan.restore_path@,
                            spec_file_names(entries@),
                        )
                    },
                    Err(_) => false,
                },
                None => r == Err::<RestorePlan, Error>(Error::ArchiveNameInvalid),
            },
            None => r == Err::<RestorePlan, Error>(Error::NotFound),
        },
{
    match last_path_component(archive_file_path) {
        None => Err(Error::NotFound),
        Some(entry_name) => match decompose(entry_name.as_str()) {
            Err(e) => Err(e),
            Ok((game_name, _turn_marker)) => {
                let restore_path = get_file_path_from_name(
                    game_name.as_str(),
                    saved_games_dir_path,
                );
                let copies = plan_flat_copy(archive_file_path, restore_path.as_str(), entries);
                Ok(RestorePlan { game_name, restore_path, copies })
            },
        },
    }
}

/// Law: a matching copy plan reads only below its source directory and
/// writes only below its destination directory, so archiving never mutates
/// the save directory it reads, and restoring never writes outside the
/// directory it replaces.
pub proof fn lemma_copies_stay_under_roots(
    copies: Seq<CopyPair>,
    source_dir: Seq<char>,
    dest_dir: Seq<char>,
    names: Seq<Seq<char>>,
)
    requires
        copies_match(copies, source_dir, dest_dir, names),
        source_dir.len() > 0,
        dest_dir.len() > 0,
    ensures
        forall|i: int|
            0 <= i < copies.len() ==> source_dir.is_prefix_of((#[trigger] copies[i]).source@),
        forall|i: int|
            0 <= i < copies.len() ==> dest_dir.is_prefix_of((#[trigger] copies[i]).dest@),
{
    assert forall|i: int|
        0 <= i < copies.len() implies source_dir.is_prefix_of((#[trigger] copies[i]).source@)
        && dest_dir.is_prefix_of(copies[i].dest@) by {
        lemma_join_keeps_dir_prefix(source_dir, names[i]);
        lemma_join_keeps_dir_prefix(dest_dir, names[i]);
    }
}

} // verus!
