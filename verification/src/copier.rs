//! Flat-copy planning: which files of a source directory are copied where.
//!
//! Copying is flat: only the regular files directly inside the source
//! directory take part, subdirectories are left alone. The library plans
//! the copies; the surrounding process performs them in order and stops at
//! the first failure, leaving a partially populated destination.

use vstd::prelude::*;
use crate::paths::{get_file_path_from_name, spec_join};

verus! {

/// One directory entry offered to copy planning: its name and whether it is
/// a regular file.
pub struct EntryInfo {
    /// The entry's file name, without its directory.
    pub name: String,
    /// Whether the entry is a regular file rather than a directory or
    /// anything else.
    pub is_file: bool,
}

/// One planned copy, from a full source path to a full destination path.
#[derive(Debug)]
pub struct CopyPair {
    /// The file to read.
    pub source: String,
    /// The file to write.
    pub dest: String,
}

/// The names of the regular files among `entries`, in enumeration order.
pub open spec fn spec_file_names(entries: Seq<EntryInfo>) -> Seq<Seq<char>>
    decreases entries.len(),
{
    if entries.len() == 0 {
        Seq::empty()
    } else if entries.last().is_file {
        spec_file_names(entries.drop_last()).push(entries.last().name@)
    } else {
        spec_file_names(entries.drop_last())
    }
}

/// Whether `copies` copies exactly the files called `names` out of
/// `source_dir` into `dest_dir`, in order.
pub open spec fn copies_match(
    copies: Seq<CopyPair>,
    source_dir: Seq<char>,
    dest_dir: Seq<char>,
    names: Seq<Seq<char>>,
) -> bool {
    &&& copies.len() == names.len()
    &&& forall|i: int|
        0 <= i < names.len() ==> (#[trigger] copies[i]).source@ == spec_join(source_dir, names[i])
            && copies[i].dest@ == spec_join(dest_dir, names[i])
}

/// Plans the flat copy of `source_dir` into `dest_dir`: one copy per
/// regular file among `entries`, in enumeration order, each read from its
/// path under the source and written to its path under the destination.
pub fn plan_flat_copy(source_dir: &str, dest_dir: &str, entries: &Vec<EntryInfo>) -> (r: Vec<
    CopyPair,
>)
    ensures
        copies_match(r@, source_dir@, dest_dir@, spec_file_names(entries@)),
{
    let mut r: Vec<CopyPair> = Vec::new();
    let mut i: usize = 0;
    proof {
        assert(entries@.take(0) =~= Seq::<EntryInfo>::empty());
    }
    while i < entries.len()
        invariant
            i <= entries@.len(),
            copies_match(r@, source_dir@, dest_dir@, spec_file_names(entries@.take(i as int))),
        decreases entries@.len() - i,
    {
        proof {
            assert(entries@.take(i as int + 1).drop_last() =~= entries@.take(i as int));
            assert(entries@.take(i as int + 1).last() == entries@[i as int]);
        }
        let entry = &entries[i];
        if entry.is_file {
            let pair = CopyPair {
                source: get_file_path_from_name(entry.name.as_str(), source_dir),
                dest: get_file_path_from_name(entry.name.as_str(), dest_dir),
            };
            r.push(pair);
        }
        i = i + 1;
    }
    proof {
        assert(entries@.take(entries@.len() as int) =~= entries@);
    }
    r
}

} // verus!
