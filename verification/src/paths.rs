//! Paths as text.

use crate::text::{begins_with, characters, concat2, concat3, opt_str, piece};
use vstd::prelude::*;

verus! {

/// A path below a directory. The part is relative to it.
pub open spec fn joined_path(dir: Seq<char>, part: Seq<char>) -> Seq<char> {
    if dir.len() == 0 {
        part
    } else if dir.last() == '/' {
        dir + part
    } else {
        dir + "/"@ + part
    }
}

/// A path below a directory. The part is relative to it.
pub fn join_path(dir: &str, part: &str) -> (r: String)
    ensures
        r@ == joined_path(dir@, part@),
{
    let chars = characters(dir);
    if chars.len() == 0 {
        part.to_string()
    } else if chars[chars.len() - 1] == '/' {
        concat2(dir, part)
    } else {
        concat3(dir, "/", part)
    }
}

/// The path with the home directory in place of a leading tilde, where the home
/// directory is known and a slash follows the tilde.
pub open spec fn expanded(path: Seq<char>, home: Option<Seq<char>>) -> Seq<char> {
    match home {
        Some(home) => if "~/"@.is_prefix_of(path) {
            home + path.skip(1)
        } else {
            path
        },
        None => path,
    }
}

/// The path with the home directory in place of a leading tilde, where the home
/// directory is known and a slash follows the tilde.
pub fn shellexpand(path: &str, home: Option<&str>) -> (r: String)
    ensures
        r@ == expanded(path@, opt_str(home)),
{
    match home {
        Some(home) => if begins_with(path, "~/") {
            proof {
                reveal_strlit("~/");
            }
            let chars = characters(path);
            let rest = piece(&chars, 1, chars.len());
            assert(rest@ =~= path@.skip(1));
            concat2(home, rest.as_str())
        } else {
            path.to_string()
        },
        None => path.to_string(),
    }
}

} // verus!
