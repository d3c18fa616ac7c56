//! File-system paths, carried through the library as values it does not look into.
use vstd::prelude::*;
use std::path::PathBuf;

verus! {

/// `std::path::PathBuf`, carried through opaquely.
#[verifier::external_type_specification]
#[verifier::external_body]
pub struct ExPathBuf(std::path::PathBuf);

/// `PathBuf::clone` returns an equal path.
pub assume_specification[ <PathBuf as Clone>::clone ](p: &PathBuf) -> (res: PathBuf)
    ensures
        res == *p,
;

/// A copy of an optional path.
pub fn clone_opt_path(p: &Option<PathBuf>) -> (res: Option<PathBuf>)
    ensures
        res == *p,
{
    match p {
        Some(x) => Some(x.clone()),
        None => None,
    }
}

} // verus!
