//! Paths of the file system, which the library carries and never looks into.

use std::path::PathBuf;
use vstd::prelude::*;

verus! {

/// `std::path::PathBuf`.
#[verifier::external_type_specification]
#[verifier::external_body]
pub struct ExPathBuf(PathBuf);

/// `PathBuf::clone` from the standard library: the copy is the same path.
pub assume_specification[ <PathBuf as Clone>::clone ](p: &PathBuf) -> (r: PathBuf)
    ensures
        r == *p,
;

/// `PathBuf::from` from the standard library: the path that `text` names.
#[verifier::external_body]
pub(crate) fn path_from(text: &str) -> PathBuf {
    PathBuf::from(text)
}

} // verus!
