//! Path derivation: joining names under directories and resolving the
//! saved-games root from configuration or the platform default.

use vstd::prelude::*;
use crate::error::Error;
use crate::namer::lemma_index_of_last_unique;

verus! {

/// The path that names `name` inside directory `dir`: the two joined with a
/// separator, which is elided when `dir` is empty or already ends with one.
pub open spec fn spec_join(dir: Seq<char>, name: Seq<char>) -> Seq<char> {
    if dir.len() == 0 {
        name
    } else if dir.last() == '/' {
        dir + name
    } else {
        dir + seq!['/'] + name
    }
}

/// A joined path keeps the directory it was built under as a prefix, so a
/// file planted under one root can never alias a file under a different,
/// non-overlapping root.
pub proof fn lemma_join_keeps_dir_prefix(dir: Seq<char>, name: Seq<char>)
    requires
        dir.len() > 0,
    ensures
        dir.is_prefix_of(spec_join(dir, name)),
{
    if dir.last() == '/' {
        assert((dir + name).subrange(0, dir.len() as int) =~= dir);
    } else {
        assert((dir + seq!['/'] + name).subrange(0, dir.len() as int) =~= dir);
    }
}

/// The full path of the entry called `name` inside `games_dir`.
pub fn get_file_path_from_name(name: &str, games_dir: &str) -> (r: String)
    ensures
        r@ == spec_join(games_dir@, name@),
{
    let n = games_dir.unicode_len();
    let mut r = String::from_str(games_dir);
    if n == 0 {
        r.append(name);
        return r;
    }
    let last = games_dir.get_char(n - 1);
    if last != '/' {
        r.append("/");
        proof {
            reveal_strlit("/");
            assert(r@ =~= games_dir@ + seq!['/']);
        }
    }
    r.append(name);
    proof {
        assert(r@ =~= spec_join(games_dir@, name@));
    }
    r
}

/// The platform-default saved-games root under the user's profile: a fixed
/// relative path below `base_dir`, which is the roaming configuration
/// directory on Windows and the home directory elsewhere.
pub fn get_default_dom5_dir(base_dir: &str, windows: bool) -> (r: String)
    ensures
        windows ==> r@ == spec_join(
            spec_join(base_dir@, "Dominions5trollololol"@),
            "savedgames"@,
        ),
        !windows ==> r@ == spec_join(spec_join(base_dir@, ".dominions5"@), "savedgames"@),
{
    let mid = if windows {
        get_file_path_from_name("Dominions5trollololol", base_dir)
    } else {
        get_file_path_from_name(".dominions5", base_dir)
    };
    get_file_path_from_name("savedgames", mid.as_str())
}

/// A path without a single trailing separator, if it carried one.
pub open spec fn spec_strip_trailing_sep(p: Seq<char>) -> Seq<char> {
    if p.len() > 0 && p.last() == '/' {
        p.drop_last()
    } else {
        p
    }
}

/// The last component of a path: the text after its rightmost separator,
/// one trailing separator ignored. A path that is empty, or only a
/// separator, has none.
pub open spec fn spec_last_component(p: Seq<char>) -> Option<Seq<char>> {
    let q = spec_strip_trailing_sep(p);
    if q.len() == 0 {
        None
    } else {
        match q.index_of_last('/') {
            Some(i) => Some(q.subrange(i + 1, q.len() as int)),
            None => Some(q),
        }
    }
}

/// Extracts the last component of a path, the way the platform's path
/// library names the final directory or file of one.
pub fn last_path_component(path: &str) -> (r: Option<String>)
    ensures
        match r {
            Some(s) => spec_last_component(path@) == Some(s@),
            None => spec_last_component(path@) is None,
        },
{
    let n = path.unicode_len();
    let m: usize = if n > 0 && path.get_char(n - 1) == '/' {
        n - 1
    } else {
        n
    };
    let ghost q = spec_strip_trailing_sep(path@);
    proof {
        assert(q =~= path@.subrange(0, m as int));
    }
    if m == 0 {
        return None;
    }
    let mut i: usize = m;
    while i > 0
        invariant
            i <= m,
            m <= n,
            n == path@.len(),
            q == spec_strip_trailing_sep(path@),
            q =~= path@.subrange(0, m as int),
            forall|j: int| i <= j < m ==> path@[j] != '/',
        decreases i,
    {
        if path.get_char(i - 1) == '/' {
            let component = path.substring_char(i, m);
            proof {
                assert(forall|j: int| 0 <= j < m ==> q[j] == path@[j]);
                lemma_index_of_last_unique(q, '/', i - 1);
                assert(component@ =~= q.subrange(i as int, q.len() as int));
            }
            return Some(String::from_str(component));
        }
        i = i - 1;
    }
    let component = path.substring_char(0, m);
    proof {
        assert(forall|j: int| 0 <= j < m ==> q[j] == path@[j]);
        q.index_of_last_ensures('/');
        if q.contains('/') {
            assert(false);
        }
        assert(component@ =~= q);
    }
    Some(String::from_str(component))
}

/// The saved-games root to use: what the configuration file holds when one
/// exists, otherwise the platform default, and an error when neither is
/// available.
pub fn get_saved_games_dir_from_config(config_contents: Option<String>, default_dir: Option<
    String,
>) -> (r: Result<String, Error>)
    ensures
        config_contents is Some ==> r == Ok::<String, Error>(config_contents->Some_0),
        config_contents is None && default_dir is Some ==> r == Ok::<String, Error>(
            default_dir->Some_0,
        ),
        config_contents is None && default_dir is None ==> r == Err::<String, Error>(
            Error::NotFound,
        ),
{
    match config_contents {
        Some(dir) => Ok(dir),
        None => match default_dir {
            Some(dir) => Ok(dir),
            None => Err(Error::NotFound),
        },
    }
}

} // verus!
