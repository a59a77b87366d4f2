//! Note-vault path handling: the sandboxing of relative paths under the vault
//! root and the classification of directory entries.

use vstd::prelude::*;
use vstd::string::StringExecFns;
use crate::strutil::{components, components_of};

verus! {

/// Where the vault lives and what it is called.
#[derive(Debug, Clone)]
pub struct VaultConfig {
    pub root_path: String,
    pub name: String,
}

/// One entry of the vault listing, with its path relative to the vault root.
#[derive(Debug, Clone)]
pub struct FileEntry {
    pub path: String,
    pub is_dir: bool,
    pub mtime: Option<u64>,
}

/// Why a relative path was rejected.
#[derive(Debug)]
pub enum VaultError {
    /// The path was absolute.
    MustBeRelative,
    /// The path holds a component that walks upward or out.
    InvalidComponent { path: String },
}

/// The message text of each rejection.
pub open spec fn vault_message_of(e: VaultError) -> Seq<char> {
    match e {
        VaultError::MustBeRelative => "Path must be relative"@,
        VaultError::InvalidComponent { path } => "Invalid path component in '"@ + path@
            + "': only normal components allowed"@,
    }
}

impl VaultError {
    /// Renders the rejection as its caller-facing message.
    pub fn message(&self) -> (r: String)
        ensures
            r@ == vault_message_of(*self),
    {
        match self {
            VaultError::MustBeRelative => "Path must be relative".to_owned(),
            VaultError::InvalidComponent { path } => {
                let mut r = "Invalid path component in '".to_owned();
                r.append(path.as_str());
                r.append("': only normal components allowed");
                r
            },
        }
    }
}

/// A path is absolute when it starts with the separator.
pub open spec fn is_absolute(p: Seq<char>) -> bool {
    p.len() > 0 && p[0] == '/'
}

/// A component that steps upward.
pub open spec fn parent_component(p: Seq<char>) -> bool {
    p.len() == 2 && p[0] == '.' && p[1] == '.'
}

/// A relative path is safe under the vault root when it is not absolute and
/// no component steps upward; `.` and empty components are harmless.
pub open spec fn safe_relative(p: Seq<char>) -> bool {
    !is_absolute(p) && (forall|i: int|
        0 <= i < components_of(p).len() ==> !parent_component(#[trigger] components_of(p)[i]))
}

/// Safely resolves a relative path within the vault root: absolute paths and
/// paths with upward components are rejected, anything else is joined under
/// the root.
pub fn resolve_safe_path(root: &str, relative_path: &str) -> (r: Result<String, VaultError>)
    ensures
        is_absolute(relative_path@) ==> r == Result::<String, VaultError>::Err(
            VaultError::MustBeRelative,
        ),
        safe_relative(relative_path@) ==> (r matches Result::Ok(p) && p@ == root@ + "/"@
            + relative_path@),
        !is_absolute(relative_path@) && !safe_relative(relative_path@) ==> (r matches Result::Err(
            e,
        ) && e matches VaultError::InvalidComponent { path } && path@ == relative_path@),
{
    let len = relative_path.unicode_len();
    if len > 0 && relative_path.get_char(0) == '/' {
        return Err(VaultError::MustBeRelative);
    }
    let comps = components(relative_path);
    let mut i: usize = 0;
    while i < comps.len()
        invariant
            !is_absolute(relative_path@),
            comps.deep_view() == components_of(relative_path@),
            i <= comps@.len(),
            forall|k: int|
                0 <= k < i ==> !parent_component(#[trigger] comps.deep_view()[k]),
        decreases comps@.len() - i,
    {
        let part = comps[i].as_str();
        let n = part.unicode_len();
        proof {
            assert(comps.deep_view().len() == comps@.len());
            assert(comps.deep_view()[i as int] == comps@[i as int]@);
        }
        if n == 2 && part.get_char(0) == '.' && part.get_char(1) == '.' {
            proof {
                assert(parent_component(components_of(relative_path@)[i as int]));
            }
            return Err(VaultError::InvalidComponent { path: relative_path.to_owned() });
        }
        i = i + 1;
    }
    let mut joined = root.to_owned();
    joined.append("/");
    joined.append(relative_path);
    Ok(joined)
}

/// A file or directory name counts as hidden when it starts with a dot.
pub open spec fn hidden_name(name: Seq<char>) -> bool {
    name.len() > 0 && name[0] == '.'
}

/// Whether a directory entry's name is hidden and should be skipped by the
/// vault listing.
pub fn is_hidden_name(name: &str) -> (r: bool)
    ensures
        r == hidden_name(name@),
{
    !name.is_empty() && name.get_char(0) == '.'
}

/// A file name carries the markdown extension: it ends in `.md` with a
/// non-empty stem, the names the vault listing keeps.
pub open spec fn markdown_name(name: Seq<char>) -> bool {
    name.len() >= 4 && name.subrange(name.len() - 3, name.len() as int) == ".md"@
}

/// Whether a file name carries the markdown extension.
pub fn is_markdown_name(name: &str) -> (r: bool)
    ensures
        r == markdown_name(name@),
{
    proof {
        reveal_strlit(".md");
    }
    let len = name.unicode_len();
    if len < 4 {
        return false;
    }
    let r = name.get_char(len - 3) == '.' && name.get_char(len - 2) == 'm' && name.get_char(
        len - 1,
    ) == 'd';
    proof {
        let sub = name@.subrange(len - 3, len as int);
        assert(sub[0] == name@[len - 3]);
        assert(sub[1] == name@[len - 2]);
        assert(sub[2] == name@[len - 1]);
        assert(".md"@[0] == '.' && ".md"@[1] == 'm' && ".md"@[2] == 'd');
        if r {
            assert(sub =~= ".md"@);
        } else {
            assert(sub != ".md"@);
        }
    }
    r
}

} // verus!
