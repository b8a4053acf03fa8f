//! The failures that the store reports to its callers.

use vstd::prelude::*;

verus! {

/// A typed failure of a store operation.
///
/// An index entry whose revision no longer resolves is not among them: list
/// operations drop such entries instead of failing.
#[derive(Clone, Debug, PartialEq, Eq)]
pub enum ContentError {
    /// A revision, a logical item or an index target is absent.
    NotFound,
    /// A role-scoped query named a role that does not exist.
    InvalidAclRole,
    /// The revision was written but one or more index writes failed.
    PartialIndexFailure,
    /// The ledger failed; its message is passed through unchanged.
    StoreUnavailable(String),
}

} // verus!
