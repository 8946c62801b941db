//! Home-directory expansion for the signer key file path.
//!
//! The caller's home directory is an explicit input here, so the function is
//! pure; the surrounding program reads the environment and passes it in.
use vstd::prelude::*;
use vstd::string::StrSliceExecFns;
use vstd::string::StringExecFns;

verus! {

/// The expansion that `expand_home` performs: a path whose first character is
/// the home marker `~`, when a home directory is known, becomes the home
/// directory followed by the rest of the path; every other path (and any path
/// when no home directory is known) stays as it is.
pub open spec fn expanded_path(path: Seq<char>, home: Option<Seq<char>>) -> Seq<char> {
    if path.len() > 0 && path[0] == '~' && home is Some {
        home->0 + path.subrange(1, path.len() as int)
    } else {
        path
    }
}

/// Substitute a leading `~` with the home directory, if one is known.
pub fn expand_home(path: &str, home: Option<&String>) -> (r: String)
    ensures
        r@ == expanded_path(path@, match home {
            Some(h) => Some(h@),
            None => None,
        }),
{
    let n = path.unicode_len();
    if n > 0 && path.get_char(0) == '~' {
        if let Some(h) = home {
            let mut s = h.clone();
            s.append(path.substring_char(1, n));
            return s;
        }
    }
    path.to_owned()
}

} // verus!
