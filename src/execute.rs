//! Role-management requests and what carrying one out does.
use vstd::prelude::*;

use cosmwasm_std::MemoryStorage;

use crate::errors::RbacError;
use crate::role::{bearers_of, Role};
use crate::store::{flags_decodable, stored_flags};

verus! {

/// A request to change who bears a role.
#[derive(Clone, Debug, PartialEq)]
pub enum RbacExecuteMsg {
    Grant { address: String },
    Revoke { address: String },
    Transfer { to: String },
}

/// One key/value pair reported by a handled request.
#[derive(Clone, Debug, PartialEq)]
pub struct Attribute {
    pub key: String,
    pub value: String,
}

/// The text of a list of attributes.
pub open spec fn attribute_texts(v: Seq<Attribute>) -> Seq<(Seq<char>, Seq<char>)> {
    v.map_values(|a: Attribute| (a.key@, a.value@))
}

/// The attributes that report one action of a role on an address.
pub open spec fn action_texts(action: Seq<char>, role: Seq<char>, address: Seq<char>) -> Seq<
    (Seq<char>, Seq<char>),
> {
    seq![("action"@, action), ("role"@, role), ("address"@, address)]
}

fn attribute(key: &str, value: &str) -> (r: Attribute)
    ensures
        r.key@ == key@,
        r.value@ == value@,
{
    Attribute { key: key.to_string(), value: value.to_string() }
}

fn action_attributes(action: &str, role: &str, address: &str) -> (r: Vec<Attribute>)
    ensures
        attribute_texts(r@) == action_texts(action@, role@, address@),
{
    let mut v: Vec<Attribute> = Vec::new();
    v.push(attribute("action", action));
    v.push(attribute("role", role));
    v.push(attribute("address", address));
    assert(attribute_texts(v@) =~= action_texts(action@, role@, address@));
    v
}

/// `r` and the store `after` are what carrying out `msg` from `sender` may
/// give in the role of namespace `name` with the store `before`.
pub open spec fn executed(
    name: Seq<char>,
    before: MemoryStorage,
    after: MemoryStorage,
    sender: Seq<char>,
    msg: RbacExecuteMsg,
    r: Result<Vec<Attribute>, RbacError>,
) -> bool {
    match msg {
        RbacExecuteMsg::Grant { address } => {
            &&& bearers_of(before, name).contains(address@) ==> r == Err::<
                Vec<Attribute>,
                RbacError,
            >(RbacError::DuplicatedRole(address)) && after == before
            &&& !bearers_of(before, name).contains(address@) ==> (r matches Ok(v)
                && attribute_texts(v@) == action_texts("grant"@, name, address@)
                && stored_flags(after) == stored_flags(before).insert(
                (name, address@),
            ))
        },
        RbacExecuteMsg::Revoke { address } => {
            &&& !bearers_of(before, name).contains(address@) ==> r == Err::<
                Vec<Attribute>,
                RbacError,
            >(RbacError::NoRoleToRevoke(address)) && after == before
            &&& bearers_of(before, name).contains(address@) ==> (r matches Ok(v)
                && attribute_texts(v@) == action_texts("revoke"@, name, address@)
                && stored_flags(after) == stored_flags(before).remove(
                (name, address@),
            ))
        },
        RbacExecuteMsg::Transfer { to } => {
            &&& !bearers_of(before, name).contains(sender) ==> r == Err::<
                Vec<Attribute>,
                RbacError,
            >(RbacError::Unauthorized) && after == before
            &&& bearers_of(before, name).contains(sender) && to@ != sender
                && bearers_of(before, name).contains(to@) ==> r == Err::<
                Vec<Attribute>,
                RbacError,
            >(RbacError::DuplicatedRole(to)) && after == before
            &&& bearers_of(before, name).contains(sender) && (to@ == sender
                || !bearers_of(before, name).contains(to@)) ==> (r matches Ok(v)
                && attribute_texts(v@) == action_texts("revoke"@, name, sender)
                + action_texts("grant"@, name, to@) && stored_flags(after)
                == stored_flags(before).remove((name, sender)).insert(
                (name, to@),
            ))
        },
    }
}

impl<'a> Role<'a> {
    /// Carries out a request made by `sender`. A transfer changes nothing
    /// unless it both takes the role from `sender` and gives it to `to`.
    pub fn handle_execute(
        &self,
        store: &mut MemoryStorage,
        sender: String,
        msg: RbacExecuteMsg,
    ) -> (r: Result<Vec<Attribute>, RbacError>)
        requires
            self.wf(),
        ensures
            executed(self.name@, *old(store), *final(store), sender@, msg, r),
            forall|n: Seq<char>|
                flags_decodable(*old(store), n) ==> #[trigger] flags_decodable(*final(store), n),
    {
        match msg {
            RbacExecuteMsg::Grant { address } => {
                match self.grant(store, address.clone()) {
                    Ok(()) => Ok(action_attributes("grant", self.name, address.as_str())),
                    Err(e) => Err(e),
                }
            },
            RbacExecuteMsg::Revoke { address } => {
                match self.revoke(store, address.clone()) {
                    Ok(()) => Ok(action_attributes("revoke", self.name, address.as_str())),
                    Err(e) => Err(e),
                }
            },
            RbacExecuteMsg::Transfer { to } => {
                match self.check(store, sender.as_str()) {
                    Ok(()) => {},
                    Err(e) => {
                        return Err(e);
                    },
                }
                if to != sender {
                    // Give first: only the grant can fail, and then nothing
                    // has changed; the revoke that follows cannot fail.
                    match self.grant(store, to.clone()) {
                        Ok(()) => {},
                        Err(e) => {
                            return Err(e);
                        },
                    }
                    let revoked = self.revoke(store, sender.clone());
                    assert(revoked is Ok);
                    assert(stored_flags(*store) =~= stored_flags(*old(store)).remove(
                        (self.name@, sender@),
                    ).insert((self.name@, to@)));
                } else {
                    assert(stored_flags(*store) =~= stored_flags(*old(store)).remove(
                        (self.name@, sender@),
                    ).insert((self.name@, to@)));
                }
                let mut attrs = action_attributes("revoke", self.name, sender.as_str());
                let mut granted = action_attributes("grant", self.name, to.as_str());
                attrs.append(&mut granted);
                assert(attribute_texts(attrs@) =~= action_texts("revoke"@, self.name@, sender@)
                    + action_texts("grant"@, self.name@, to@));
                Ok(attrs)
            },
        }
    }
}

} // verus!
