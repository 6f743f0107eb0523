//! File-system paths as the runtime contracts carry them.

use std::path::PathBuf;
use vstd::prelude::*;

verus! {

#[verifier::external_type_specification]
#[verifier::external_body]
pub struct ExPathBuf(std::path::PathBuf);

/// Whether two paths name the same location, as `Path`'s `==` decides it
/// (component by component).
pub uninterp spec fn same_path(a: PathBuf, b: PathBuf) -> bool;

/// `<Path as PartialEq>::eq`: compares the two paths component by component.
/// The contract names the result and states no more of it.
#[verifier::external_body]
pub(crate) fn paths_equal(a: &PathBuf, b: &PathBuf) -> (r: bool)
    ensures
        r == same_path(*a, *b),
{
    a.as_path() == b.as_path()
}

/// `<PathBuf as Clone>::clone`: a copy of the path, equal to it.
pub assume_specification[ <std::path::PathBuf as Clone>::clone ](p: &PathBuf) -> (r: PathBuf)
    ensures
        r == *p,
;

} // verus!
