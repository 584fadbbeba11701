//! File-system paths, taken apart and put together by `std::path`.
use vstd::prelude::*;

verus! {

/// What `Path::parent` gives for a path, shown as a string.
pub uninterp spec fn path_parent(p: Seq<char>) -> Option<Seq<char>>;

/// What `Path::join` gives for a base and a relative child, shown as a string.
pub uninterp spec fn path_join(base: Seq<char>, child: Seq<char>) -> Seq<char>;

/// What `Debug` writes for a path.
pub uninterp spec fn path_debug(p: Seq<char>) -> Seq<char>;

/// `Path::parent`: the path without its last component, or nothing for a
/// root or an empty path.  The result is a function of the path alone.
#[verifier::external_body]
pub(crate) fn parent_of(p: &str) -> (r: Option<String>)
    ensures
        match r {
            Some(q) => path_parent(p@) == Some(q@),
            None => path_parent(p@) is None,
        },
{
    std::path::Path::new(p).parent().map(|q| q.to_string_lossy().into_owned())
}

/// `Path::join`: the base with the child appended as a further component.
/// The result is a function of the two paths alone.
#[verifier::external_body]
pub(crate) fn join(base: &str, child: &str) -> (r: String)
    ensures
        r@ == path_join(base@, child@),
{
    std::path::Path::new(base).join(child).to_string_lossy().into_owned()
}

/// `Debug` on a path: the path quoted, with its special characters escaped.
/// The result is a function of the path alone.
#[verifier::external_body]
pub(crate) fn debug_text(p: &str) -> (r: String)
    ensures
        r@ == path_debug(p@),
{
    format!("{:?}", std::path::Path::new(p))
}

} // verus!
