//! File-system paths built from text.

use vstd::prelude::*;

verus! {

/// Name for what `std::path::Path::join` gives for a base path and a child, as text. The
/// separator it inserts is that of the target the library is compiled for.
pub uninterp spec fn joined_path(base: Seq<char>, child: Seq<char>) -> Seq<char>;

/// Calls `std::path::Path::join` on two UTF-8 paths; the result is UTF-8 again.
#[verifier::external_body]
pub fn path_join(base: &str, child: &str) -> (p: String)
    ensures
        p@ == joined_path(base@, child@),
{
    std::path::Path::new(base).join(child).to_string_lossy().into_owned()
}

} // verus!
