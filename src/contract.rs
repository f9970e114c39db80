//! A contract that keeps one role, its administrators: the account that
//! sets it up becomes the first of them, and only administrators change who
//! the administrators are.
use vstd::prelude::*;
use vstd::utf8::{is_ascii_chars, is_ascii_chars_encode_utf8};

use cosmwasm_std::{MemoryStorage, StdError};

use crate::errors::RbacError;
use crate::execute::{attribute_texts, executed, Attribute, RbacExecuteMsg};
use crate::query::{queried, RbacQueryMsg, RbacQueryResponse};
use crate::role::{bearers_of, Role};
use crate::store::{flags_decodable, stored_flags};

verus! {

/// The role of the contract's administrators.
pub fn admins() -> (r: Role<'static>)
    ensures
        r.name@ == "admins"@,
        r.wf(),
{
    let name: &'static str = "admins";
    proof {
        reveal_strlit("admins");
        assert(is_ascii_chars(name@));
        is_ascii_chars_encode_utf8(name@);
    }
    Role::new(name)
}

/// Setting the contract up takes no parameters.
#[derive(Clone, Debug, PartialEq)]
pub struct InstantiateMsg {}

#[derive(Clone, Debug, PartialEq)]
pub enum ExecuteMsg {
    Admin(RbacExecuteMsg),
}

#[derive(Clone, Debug, PartialEq)]
pub enum QueryMsg {
    Admin(RbacQueryMsg),
}

/// What the contract's entry points fail with.
#[derive(Debug, PartialEq)]
pub enum ContractError {
    Rbac(RbacError),
}

/// The texts of the attributes that report setting the contract up.
pub open spec fn instantiate_texts(owner: Seq<char>) -> Seq<(Seq<char>, Seq<char>)> {
    seq![("method"@, "instantiate"@), ("owner"@, owner)]
}

/// The result of a role operation as the contract reports it.
pub open spec fn rbac_result(r: Result<Vec<Attribute>, ContractError>) -> Result<
    Vec<Attribute>,
    RbacError,
> {
    match r {
        Ok(v) => Ok(v),
        Err(ContractError::Rbac(e)) => Err(e),
    }
}

/// Sets the contract up: `sender` becomes its first administrator.
pub fn instantiate(store: &mut MemoryStorage, sender: String, msg: InstantiateMsg) -> (r: Result<
    Vec<Attribute>,
    ContractError,
>)
    ensures
        bearers_of(*old(store), "admins"@).contains(sender@) ==> r == Err::<
            Vec<Attribute>,
            ContractError,
        >(ContractError::Rbac(RbacError::DuplicatedRole(sender))) && *final(store) == *old(store),
        !bearers_of(*old(store), "admins"@).contains(sender@) ==> (r matches Ok(v)
            && attribute_texts(v@) == instantiate_texts(sender@) && stored_flags(*final(store))
            == stored_flags(*old(store)).insert(("admins"@, sender@))),
        forall|n: Seq<char>|
            flags_decodable(*old(store), n) ==> #[trigger] flags_decodable(*final(store), n),
{
    let role = admins();
    match role.grant(store, sender.clone()) {
        Ok(()) => {},
        Err(e) => {
            return Err(ContractError::Rbac(e));
        },
    }
    let mut v: Vec<Attribute> = Vec::new();
    v.push(Attribute { key: "method".to_string(), value: "instantiate".to_string() });
    v.push(Attribute { key: "owner".to_string(), value: sender });
    assert(attribute_texts(v@) =~= instantiate_texts(sender@));
    Ok(v)
}

/// Carries out a request of `sender`, who must be an administrator.
pub fn execute(store: &mut MemoryStorage, sender: String, msg: ExecuteMsg) -> (r: Result<
    Vec<Attribute>,
    ContractError,
>)
    ensures
        match msg {
            ExecuteMsg::Admin(m) => {
                &&& !bearers_of(*old(store), "admins"@).contains(sender@) ==> r == Err::<
                    Vec<Attribute>,
                    ContractError,
                >(ContractError::Rbac(RbacError::Unauthorized)) && *final(store) == *old(store)
                &&& bearers_of(*old(store), "admins"@).contains(sender@) ==> executed(
                    "admins"@,
                    *old(store),
                    *final(store),
                    sender@,
                    m,
                    rbac_result(r),
                )
            },
        },
        forall|n: Seq<char>|
            flags_decodable(*old(store), n) ==> #[trigger] flags_decodable(*final(store), n),
{
    match msg {
        ExecuteMsg::Admin(m) => {
            let role = admins();
            match role.check(store, sender.as_str()) {
                Ok(()) => {},
                Err(e) => {
                    return Err(ContractError::Rbac(e));
                },
            }
            match role.handle_execute(store, sender, m) {
                Ok(v) => Ok(v),
                Err(e) => Err(ContractError::Rbac(e)),
            }
        },
    }
}

/// Answers a question about the administrators.
pub fn query(store: &MemoryStorage, msg: QueryMsg) -> (r: Result<RbacQueryResponse, StdError>)
    ensures
        match msg {
            QueryMsg::Admin(m) => queried(
                bearers_of(*store, "admins"@),
                flags_decodable(*store, "admins"@),
                m,
                r,
            ),
        },
{
    match msg {
        QueryMsg::Admin(m) => admins().handle_query(store, m),
    }
}

} // verus!
