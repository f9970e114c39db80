use vstd::prelude::*;

use cosmwasm_std::StdError;

verus! {

/// What a role operation can fail with.
#[derive(Debug, PartialEq)]
pub enum RbacError {
    /// The store failed; the cause is kept as it came.
    Std(StdError),
    /// The caller does not hold the role.
    Unauthorized,
    /// The account already holds the role.
    DuplicatedRole(String),
    /// The account does not hold the role.
    NoRoleToRevoke(String),
}

} // verus!
