//! Paths as text, joined by `camino`.

use camino::Utf8Path;

use vstd::prelude::*;

verus! {

/// Whether a path is one that stays below what it is joined to: it starts with no separator and
/// names no drive.
pub open spec fn is_relative(path: Seq<char>) -> bool {
    &&& path.len() > 0 ==> path[0] != '/' && path[0] != '\\'
    &&& path.len() > 1 ==> path[1] != ':'
}

/// Whether a path has the prefix that tells Windows to take it verbatim.
pub open spec fn is_verbatim(path: Seq<char>) -> bool {
    path.len() >= 4 && path[0] == '\\' && path[1] == '\\' && path[2] == '?' && path[3] == '\\'
}

/// Whether `path` is that of `leaf` below `base`: the one after the other, with one separator
/// between them unless `base` ends in one, is empty, or may name a drive.
pub open spec fn is_below(base: Seq<char>, leaf: Seq<char>, path: Seq<char>) -> bool {
    if base.len() == 0 || base.last() == '/' {
        path == base + leaf
    } else {
        ||| path == base + leaf && (base.last() == '\\' || base.last() == ':')
        ||| path == base + seq!['/'] + leaf
        ||| path == base + seq!['\\'] + leaf
    }
}

/// Whether `path` is `leaf` in the place of `base`, or of all of `base` behind some beginning.
pub open spec fn replaces(base: Seq<char>, leaf: Seq<char>, path: Seq<char>) -> bool {
    exists|n: int| 0 <= n <= base.len() && path == #[trigger] base.take(n) + leaf
}

/// What joining `leaf` to `base` can give: a relative `leaf` lies below `base`, and another lies
/// below it or replaces it, in whole or behind its beginning.
pub open spec fn joins(base: Seq<char>, leaf: Seq<char>, path: Seq<char>) -> bool {
    !is_verbatim(base) ==> {
        ||| is_below(base, leaf, path)
        ||| !is_relative(leaf) && replaces(base, leaf, path)
    }
}

/// A joined path ends in what was joined.
pub proof fn law_joined_path_ends_in_leaf(base: Seq<char>, leaf: Seq<char>, path: Seq<char>)
    requires
        joins(base, leaf, path),
        !is_verbatim(base),
    ensures
        path.len() >= leaf.len(),
        path.skip(path.len() - leaf.len()) == leaf,
{
    assert(path.skip(path.len() - leaf.len()) =~= leaf);
}

/// Joins two paths with [`Utf8Path::join`]: a relative `leaf` is appended to `base`, with the
/// separator of the system between them unless `base` is empty or ends in a separator. A `leaf`
/// that is not relative on some system is appended, or replaces `base` but for its drive.
///
/// Which separator that is, whether a backslash is one, whether a colon ends the name of a drive,
/// behind which none is put, and which `leaf` replaces how much of `base`, is the system's affair.
/// Nothing is said of a verbatim `base`, which Windows rewrites.
#[verifier::external_body]
pub(crate) fn join(base: &str, leaf: &str) -> (path: String)
    ensures
        joins(base@, leaf@, path@),
{
    Utf8Path::new(base).join(leaf).into_string()
}

/// A joined path keeps what it was joined to: a leaf that starts with no separator and names no drive
/// stands behind the whole of the base, with exactly one separator between them where the base is
/// not empty and does not end in one or in the colon of a drive.
pub proof fn law_joined_path_starts_with_base(base: Seq<char>, leaf: Seq<char>, path: Seq<char>)
    requires
        joins(base, leaf, path),
        leaf.len() > 1,
        leaf[0] != '/' && leaf[0] != '\\' && leaf[1] != ':',
        base.len() < 4 || base[0] != '\\' || base[1] != '\\',
    ensures
        path.len() >= base.len() && path.take(base.len() as int) == base,
        base.len() > 0 && base.last() != '/' && base.last() != '\\' && base.last() != ':' ==> {
            &&& path.len() == base.len() + 1 + leaf.len()
            &&& path[base.len() as int] == '/' || path[base.len() as int] == '\\'
        },
        base.len() == 0 ==> path == leaf,
        base.len() > 0 && base.last() == '/' ==> path.len() == base.len() + leaf.len(),
{
    assert(path.take(base.len() as int) =~= base);
    assert(base.len() == 0 ==> path =~= leaf);
}

} // verus!
