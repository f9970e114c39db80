//! Questions about a role and their answers.
use vstd::prelude::*;

use cosmwasm_std::{MemoryStorage, StdError};

use crate::role::{effective_limit, is_page, texts, Role};
use crate::store::{cursor_view, flags_decodable};

verus! {

/// A question about who bears a role.
#[derive(Clone, Debug, PartialEq)]
pub enum RbacQueryMsg {
    HasRole { address: String },
    AllAccounts { starts_after: Option<String>, limit: Option<u32> },
}

/// Whether an account bears the role.
#[derive(Clone, Debug, PartialEq)]
pub struct HasRoleResponse {
    pub has: bool,
}

/// A page of the accounts that bear the role.
#[derive(Clone, Debug, PartialEq)]
pub struct AllAccountsResponse {
    pub accounts: Vec<String>,
}

/// The answer to an `RbacQueryMsg`, of the variant of the question.
#[derive(Clone, Debug, PartialEq)]
pub enum RbacQueryResponse {
    HasRole(HasRoleResponse),
    AllAccounts(AllAccountsResponse),
}

/// `r` answers `msg` about a role borne by `members`, whose entries all
/// decode when `decodable` holds.
pub open spec fn queried(
    members: Set<Seq<char>>,
    decodable: bool,
    msg: RbacQueryMsg,
    r: Result<RbacQueryResponse, StdError>,
) -> bool {
    match msg {
        RbacQueryMsg::HasRole { address } => r matches Ok(RbacQueryResponse::HasRole(h)) && h.has
            == members.contains(address@),
        RbacQueryMsg::AllAccounts { starts_after, limit } => (decodable ==> r is Ok) && (r is Ok
            ==> r->Ok_0 is AllAccounts)
            && (r matches Ok(RbacQueryResponse::AllAccounts(a)) ==> is_page(
            members,
            cursor_view(starts_after),
            effective_limit(limit),
            texts(a.accounts@),
        )),
    }
}

impl<'a> Role<'a> {
    /// Answers a question about the role.
    pub fn handle_query(&self, store: &MemoryStorage, msg: RbacQueryMsg) -> (r: Result<
        RbacQueryResponse,
        StdError,
    >)
        requires
            self.wf(),
        ensures
            queried(self.bearers(*store), flags_decodable(*store, self.name@), msg, r),
    {
        match msg {
            RbacQueryMsg::HasRole { address } => {
                match self.has(store, address.as_str()) {
                    Ok(has) => Ok(RbacQueryResponse::HasRole(HasRoleResponse { has })),
                    Err(e) => Err(e),
                }
            },
            RbacQueryMsg::AllAccounts { starts_after, limit } => {
                match self.all_accounts(store, starts_after, limit) {
                    Ok(accounts) => Ok(RbacQueryResponse::AllAccounts(AllAccountsResponse { accounts })),
                    Err(e) => Err(e),
                }
            },
        }
    }
}

} // verus!
