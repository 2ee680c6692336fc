//! Turn-number extraction from a save directory's binary files.
//!
//! The turn number is the single byte at a fixed offset of the control file
//! `ftherlnd`, or, when that file cannot be read, of the first directory
//! entry in enumeration order whose extension is `trn` or `2h` and whose
//! contents could be read. A file too short to hold the offset yields
//! nothing and the search moves on.

use vstd::prelude::*;
use crate::error::Error;
use crate::namer::lemma_index_of_last_unique;

verus! {

/// Byte offset at which a save file stores the turn number.
pub const TURN_NUMBER_OFFSET: usize = 0x0e;

/// The turn number a single file's contents yield: the byte at the fixed
/// offset, or nothing when the file is too short to hold it.
pub open spec fn spec_turn_number(bytes: Seq<u8>) -> Option<u8> {
    if bytes.len() > TURN_NUMBER_OFFSET {
        Some(bytes[TURN_NUMBER_OFFSET as int])
    } else {
        None
    }
}

/// Reads the turn number out of one file's contents, bounds-checked.
pub fn turn_number_from_bytes(bytes: &Vec<u8>) -> (r: Option<u8>)
    ensures
        r == spec_turn_number(bytes@),
{
    if bytes.len() > TURN_NUMBER_OFFSET {
        Some(bytes[TURN_NUMBER_OFFSET])
    } else {
        None
    }
}

/// The extension of a plain file name: the part after the rightmost dot. A
/// name with no dot, or whose only dot leads it, has none.
pub open spec fn spec_extension(name: Seq<char>) -> Option<Seq<char>> {
    match name.index_of_last('.') {
        Some(i) => if i == 0 {
            None
        } else {
            Some(name.subrange(i + 1, name.len() as int))
        },
        None => None,
    }
}

/// Whether a file name carries one of the turn-bearing extensions.
pub open spec fn spec_has_turn_extension(name: Seq<char>) -> bool {
    spec_extension(name) == Some("trn"@) || spec_extension(name) == Some("2h"@)
}

/// Decides whether a directory entry is a fallback turn file by its name.
pub fn has_turn_extension(name: &str) -> (r: bool)
    ensures
        r == spec_has_turn_extension(name@),
{
    proof {
        reveal_strlit("trn");
        reveal_strlit("2h");
    }
    let n = name.unicode_len();
    let mut i: usize = n;
    while i > 0
        invariant
            i <= n,
            n == name@.len(),
            forall|j: int| i <= j < n ==> name@[j] != '.',
        decreases i,
    {
        if name.get_char(i - 1) == '.' {
            proof {
                reveal_strlit("trn");
                reveal_strlit("2h");
                lemma_index_of_last_unique(name@, '.', i - 1);
            }
            if i == 1 {
                return false;
            }
            let ghost ext = name@.subrange(i as int, n as int);
            let ext_len: usize = n - i;
            if ext_len == 3 {
                let matched = name.get_char(i) == 't' && name.get_char(i + 1) == 'r'
                    && name.get_char(i + 2) == 'n';
                proof {
                    assert(ext.len() == 3);
                    assert(ext[0] == name@[i as int]);
                    assert(ext[1] == name@[i as int + 1]);
                    assert(ext[2] == name@[i as int + 2]);
                    if matched {
                        assert(ext =~= "trn"@);
                    } else {
                        assert(ext != "trn"@);
                        assert(ext != "2h"@);
                    }
                }
                return matched;
            } else if ext_len == 2 {
                let matched = name.get_char(i) == '2' && name.get_char(i + 1) == 'h';
                proof {
                    assert(ext.len() == 2);
                    assert(ext[0] == name@[i as int]);
                    assert(ext[1] == name@[i as int + 1]);
                    if matched {
                        assert(ext =~= "2h"@);
                    } else {
                        assert(ext != "trn"@);
                        assert(ext != "2h"@);
                    }
                }
                return matched;
            } else {
                proof {
                    assert(ext.len() == n - i);
                    assert(ext != "trn"@);
                    assert(ext != "2h"@);
                }
                return false;
            }
        }
        i = i - 1;
    }
    proof {
        name@.index_of_last_ensures('.');
        if name@.contains('.') {
            assert(false);
        }
    }
    false
}

/// One directory entry offered to the turn-number search: its file name and
/// its contents where the read succeeded.
pub struct TurnCandidate {
    /// The entry's file name, without its directory.
    pub name: String,
    /// The entry's contents, absent when the file could not be read.
    pub bytes: Option<Vec<u8>>,
}

/// The turn number the fallback scan yields: the byte at the turn offset of
/// the first candidate, in enumeration order, whose name carries a
/// turn-bearing extension and whose contents were read and reach the offset.
pub open spec fn spec_scan_turn_number(cands: Seq<TurnCandidate>) -> Option<u8>
    decreases cands.len(),
{
    if cands.len() == 0 {
        None
    } else {
        let c = cands.first();
        if spec_has_turn_extension(c.name@) && c.bytes is Some && spec_turn_number(
            c.bytes->Some_0@,
        ) is Some {
            spec_turn_number(c.bytes->Some_0@)
        } else {
            spec_scan_turn_number(cands.drop_first())
        }
    }
}

/// The turn number a save directory yields: the control file's byte when it
/// was read and reaches the offset, otherwise whatever the fallback scan of
/// the directory's entries finds.
pub open spec fn spec_turn_lookup(control: Option<Seq<u8>>, cands: Seq<TurnCandidate>) -> Option<
    u8,
> {
    if control is Some && spec_turn_number(control->Some_0) is Some {
        spec_turn_number(control->Some_0)
    } else {
        spec_scan_turn_number(cands)
    }
}

/// Finds the turn number of a save directory from the contents of its
/// control file, when that could be read, and from its directory entries
/// otherwise. A caller that could not enumerate the directory passes no
/// candidates, and the turn number is then reported unavailable unless the
/// control file already yielded it.
pub fn get_turn_number(control: &Option<Vec<u8>>, candidates: &Vec<TurnCandidate>) -> (r: Result<
    u8,
    Error,
>)
    ensures
        match spec_turn_lookup(control.deep_view(), candidates@) {
            Some(t) => r == Ok::<u8, Error>(t),
            None => r == Err::<u8, Error>(Error::TurnNumberUnavailable),
        },
{
    if let Some(bytes) = control {
        if let Some(t) = turn_number_from_bytes(bytes) {
            return Ok(t);
        }
    }
    let mut i: usize = 0;
    proof {
        assert(candidates@.skip(0) =~= candidates@);
    }
    while i < candidates.len()
        invariant
            i <= candidates@.len(),
            spec_scan_turn_number(candidates@.skip(i as int)) == spec_scan_turn_number(
                candidates@,
            ),
            spec_turn_lookup(control.deep_view(), candidates@) == spec_scan_turn_number(
                candidates@,
            ),
        decreases candidates@.len() - i,
    {
        let c = &candidates[i];
        proof {
            assert(candidates@.skip(i as int).first() == candidates@[i as int]);
            assert(candidates@.skip(i as int).drop_first() =~= candidates@.skip(i as int + 1));
        }
        if has_turn_extension(c.name.as_str()) {
            if let Some(bytes) = &c.bytes {
                if let Some(t) = turn_number_from_bytes(bytes) {
                    return Ok(t);
                }
            }
        }
        i = i + 1;
    }
    proof {
        assert(candidates@.skip(candidates@.len() as int).len() == 0);
    }
    Err(Error::TurnNumberUnavailable)
}

} // verus!
