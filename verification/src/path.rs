//! File system paths, held as strings. Paths are Unix paths: `/` separates
//! their components and a path is absolute when it starts with `/`.
use vstd::prelude::*;

verus! {

/// A path is absolute when it starts with the root `/`.
pub open spec fn is_absolute_path(path: Seq<char>) -> bool {
    path.len() > 0 && path[0] == '/'
}

/// `rel` adjoined to `base`: an absolute `rel` replaces `base`; a relative
/// one extends `base`, with a `/` between them unless `base` is empty or
/// already ends in `/`.
pub open spec fn joined_path(base: Seq<char>, rel: Seq<char>) -> Seq<char> {
    if is_absolute_path(rel) || base.len() == 0 {
        rel
    } else if base.last() == '/' {
        base + rel
    } else {
        base + seq!['/'] + rel
    }
}

/// `std::path::Path::is_absolute`. Its documentation: on Unix a path is
/// absolute if it starts with the root. Trusted, not proved.
#[verifier::external_body]
pub(crate) fn path_is_absolute(path: &str) -> (absolute: bool)
    ensures
        absolute == is_absolute_path(path@),
{
    std::path::Path::new(path).is_absolute()
}

/// `std::path::Path::join`, which adjoins `rel` to `base` as
/// `PathBuf::push` does. Trusted, not proved: on Unix an absolute `rel`
/// replaces `base`, and a relative `rel` is appended, a separator being put
/// in between only when `base` is non-empty and does not already end in one.
#[verifier::external_body]
pub(crate) fn path_join(base: &str, rel: &str) -> (joined: String)
    ensures
        joined@ == joined_path(base@, rel@),
{
    std::path::Path::new(base).join(rel).to_string_lossy().into_owned()
}

} // verus!
