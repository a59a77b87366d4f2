//! Decisions of the vault file watcher: which paths are ignored and which
//! event a debounced notification turns into.

use vstd::prelude::*;
use crate::strutil::{components, components_of};

verus! {

/// A component of a dot-directory: starts with a dot but is neither `.` nor
/// `..`, such as `.git` or a tool's private folder.
pub open spec fn dot_component(p: Seq<char>) -> bool {
    p.len() > 0 && p[0] == '.' && !(p.len() == 1) && !(p.len() == 2 && p[1] == '.')
}

/// A path is ignored when any of its components is a dot-directory or
/// dot-file name.
pub open spec fn ignored_path(p: Seq<char>) -> bool {
    exists|i: int| 0 <= i < components_of(p).len() && dot_component(#[trigger] components_of(p)[i])
}

/// Whether a watcher event's path should be ignored.
pub fn should_ignore(path: &str) -> (r: bool)
    ensures
        r == ignored_path(path@),
{
    let comps = components(path);
    let mut i: usize = 0;
    while i < comps.len()
        invariant
            comps.deep_view() == components_of(path@),
            i <= comps@.len(),
            forall|k: int| 0 <= k < i ==> !dot_component(#[trigger] comps.deep_view()[k]),
        decreases comps@.len() - i,
    {
        let part = comps[i].as_str();
        let n = part.unicode_len();
        proof {
            assert(comps.deep_view().len() == comps@.len());
            assert(comps.deep_view()[i as int] == comps@[i as int]@);
        }
        if n > 0 && part.get_char(0) == '.' && n != 1 && !(n == 2 && part.get_char(1) == '.') {
            proof {
                assert(dot_component(components_of(path@)[i as int]));
            }
            return true;
        }
        i = i + 1;
    }
    false
}

/// The event name emitted for a debounced change: paths that still exist are
/// reported as changed, vanished ones as deleted.
pub fn change_event_name(path_exists: bool) -> (r: &'static str)
    ensures
        path_exists ==> r@ == "vault:file-changed"@,
        !path_exists ==> r@ == "vault:file-deleted"@,
{
    if path_exists {
        "vault:file-changed"
    } else {
        "vault:file-deleted"
    }
}

} // verus!
