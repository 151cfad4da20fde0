//! What this library takes from the standard library on trust.

use vstd::prelude::*;

verus! {

/// Equality of string slices, `str::eq` of the standard library: two slices
/// are equal exactly when they hold the same characters.
pub assume_specification[ <str as PartialEq>::eq ](a: &str, b: &str) -> (equal: bool)
    ensures
        equal == (a@ == b@),
;

/// The text of `path` after `std::path::Path::with_extension` has given it
/// `extension`, on the platform that the library is built for.
pub uninterp spec fn path_with_extension(path: Seq<char>, extension: Seq<char>) -> Seq<char>;

/// The sibling of `path` that carries `extension`, computed by
/// `std::path::Path::with_extension`.
///
/// Nothing is proved of the result: the contract only gives it the name
/// [`path_with_extension`]. The standard library panics on an extension that
/// holds a path separator, so such an extension is not admitted.
#[verifier::external_body]
pub(crate) fn with_extension(path: &str, extension: &str) -> (sibling: String)
    requires
        !extension@.contains('/'),
        !extension@.contains('\\'),
    ensures
        sibling@ == path_with_extension(path@, extension@),
{
    std::path::Path::new(path).with_extension(extension).to_string_lossy().into_owned()
}

} // verus!
