//! File-system locations, carried through as opaque values.

use vstd::prelude::*;

verus! {

/// `std::path::PathBuf`, of which nothing is known here but its identity.
#[verifier::external_type_specification]
#[verifier::external_body]
pub struct ExPathBuf(std::path::PathBuf);

} // verus!
