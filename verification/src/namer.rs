//! Archive naming: an archive entry is called `<game-name>-<turn-number>`,
//! and the game name is recovered by splitting at the rightmost hyphen,
//! because game names may themselves contain hyphens.

use vstd::prelude::*;
use crate::error::Error;

verus! {

/// The character for the decimal digit `d`; callers keep `d` below ten.
pub open spec fn digit_char(d: nat) -> char
    recommends
        d < 10,
{
    if d == 0 {
        '0'
    } else if d == 1 {
        '1'
    } else if d == 2 {
        '2'
    } else if d == 3 {
        '3'
    } else if d == 4 {
        '4'
    } else if d == 5 {
        '5'
    } else if d == 6 {
        '6'
    } else if d == 7 {
        '7'
    } else if d == 8 {
        '8'
    } else {
        '9'
    }
}

/// The decimal rendering of a turn number, without leading zeros. A turn
/// number is a single byte, so at most three digits appear.
pub open spec fn spec_turn_digits(n: nat) -> Seq<char>
    recommends
        n < 256,
{
    if n < 10 {
        seq![digit_char(n)]
    } else if n < 100 {
        seq![digit_char(n / 10), digit_char(n % 10)]
    } else {
        seq![digit_char(n / 100), digit_char((n / 10) % 10), digit_char(n % 10)]
    }
}

/// The archive directory name for `name` at turn `turn`: the game name, a
/// literal hyphen, and the decimal turn number.
pub open spec fn spec_compose(name: Seq<char>, turn: nat) -> Seq<char> {
    name + seq!['-'] + spec_turn_digits(turn)
}

/// What decomposing an archive name recovers: the text before and after the
/// rightmost hyphen, or nothing when the name holds no hyphen at all.
pub open spec fn spec_decompose(s: Seq<char>) -> Option<(Seq<char>, Seq<char>)> {
    match s.index_of_last('-') {
        Some(i) => Some((s.subrange(0, i), s.subrange(i + 1, s.len() as int))),
        None => None,
    }
}

/// The rightmost position holding `c` determines `index_of_last` uniquely.
pub(crate) proof fn lemma_index_of_last_unique(s: Seq<char>, c: char, i: int)
    requires
        0 <= i < s.len(),
        s[i] == c,
        forall|j: int| i < j < s.len() ==> s[j] != c,
    ensures
        s.index_of_last(c) == Some(i),
{
    s.index_of_last_ensures(c);
    assert(s.contains(c));
    let found = s.index_of_last(c)->Some_0;
    if found < i {
        assert(s[i] == c);
        assert(false);
    } else if found > i {
        assert(s[found] != c);
        assert(false);
    }
}

/// The decimal string for `d`, a single digit.
fn digit_str(d: u8) -> (r: &'static str)
    requires
        d < 10,
    ensures
        r@ == seq![digit_char(d as nat)],
{
    proof {
        reveal_strlit("0");
        reveal_strlit("1");
        reveal_strlit("2");
        reveal_strlit("3");
        reveal_strlit("4");
        reveal_strlit("5");
        reveal_strlit("6");
        reveal_strlit("7");
        reveal_strlit("8");
        reveal_strlit("9");
    }
    let r: &'static str = if d == 0 {
        "0"
    } else if d == 1 {
        "1"
    } else if d == 2 {
        "2"
    } else if d == 3 {
        "3"
    } else if d == 4 {
        "4"
    } else if d == 5 {
        "5"
    } else if d == 6 {
        "6"
    } else if d == 7 {
        "7"
    } else if d == 8 {
        "8"
    } else {
        "9"
    };
    proof {
        assert(r@ =~= seq![digit_char(d as nat)]);
    }
    r
}

/// Builds the archive name for `name` at turn `turn`.
pub fn compose(name: &str, turn: u8) -> (r: String)
    ensures
        r@ == spec_compose(name@, turn as nat),
{
    let mut r = String::from_str(name);
    r.append("-");
    if turn >= 100 {
        r.append(digit_str(turn / 100));
        r.append(digit_str((turn / 10) % 10));
        r.append(digit_str(turn % 10));
    } else if turn >= 10 {
        r.append(digit_str(turn / 10));
        r.append(digit_str(turn % 10));
    } else {
        r.append(digit_str(turn));
    }
    proof {
        reveal_strlit("-");
        assert(r@ =~= spec_compose(name@, turn as nat));
    }
    r
}

/// Splits an archive name at its rightmost hyphen into the game name and the
/// turn marker, or reports that no hyphen is present, in which case no game
/// name can be recovered.
pub fn decompose(archive_name: &str) -> (r: Result<(String, String), Error>)
    ensures
        match r {
            Ok(parts) => spec_decompose(archive_name@) == Some((parts.0@, parts.1@)),
            Err(e) => e == Error::ArchiveNameInvalid && spec_decompose(archive_name@) is None,
        },
{
    let n = archive_name.unicode_len();
    let mut i: usize = n;
    while i > 0
        invariant
            i <= n,
            n == archive_name@.len(),
            forall|j: int| i <= j < n ==> archive_name@[j] != '-',
        decreases i,
    {
        if archive_name.get_char(i - 1) == '-' {
            let prefix = archive_name.substring_char(0, i - 1);
            let suffix = archive_name.substring_char(i, n);
            proof {
                lemma_index_of_last_unique(archive_name@, '-', i - 1);
            }
            return Ok((String::from_str(prefix), String::from_str(suffix)));
        }
        i = i - 1;
    }
    proof {
        archive_name@.index_of_last_ensures('-');
        if archive_name@.contains('-') {
            assert(false);
        }
    }
    Err(Error::ArchiveNameInvalid)
}

/// No digit of a rendered turn number is a hyphen, so the hyphen written by
/// `compose` stays the rightmost one in the archive name.
proof fn lemma_turn_digits_no_hyphen(n: nat)
    ensures
        forall|j: int| 0 <= j < spec_turn_digits(n).len() ==> spec_turn_digits(n)[j] != '-',
{
}

/// Law: decomposing a composed archive name recovers the game name and the
/// decimal turn rendering exactly, even when the game name itself contains
/// hyphens, because decomposition splits at the rightmost hyphen.
pub proof fn lemma_compose_decompose(name: Seq<char>, turn: u8)
    ensures
        spec_decompose(spec_compose(name, turn as nat)) == Some(
            (name, spec_turn_digits(turn as nat)),
        ),
{
    let digits = spec_turn_digits(turn as nat);
    let s = spec_compose(name, turn as nat);
    lemma_turn_digits_no_hyphen(turn as nat);
    assert(s[name.len() as int] == '-');
    assert forall|j: int| name.len() < j < s.len() implies s[j] != '-' by {
        assert(s[j] == digits[j - name.len() - 1]);
    }
    lemma_index_of_last_unique(s, '-', name.len() as int);
    assert(s.subrange(0, name.len() as int) =~= name);
    assert(s.subrange(name.len() as int + 1, s.len() as int) =~= digits);
}

} // verus!
