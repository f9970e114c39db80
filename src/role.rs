//! A named role and the set of accounts that bear it.
use vstd::prelude::*;

use cosmwasm_std::{MemoryStorage, StdError};

use crate::errors::RbacError;
use crate::order::{key_above, key_lt, lemma_key_lt_total, lemma_key_lt_transitive};
use crate::store::{cursor_view, flag_has, flag_next, flag_remove, flag_save, flags_decodable, namespace_fits, stored_flags};

verus! {

/// Largest page that `all_accounts` returns.
pub const MAX_LIMIT: u32 = 30;

/// Page size when the caller names none.
pub const DEFAULT_LIMIT: u32 = 10;

/// The page size used for a requested limit.
pub open spec fn effective_limit(limit: Option<u32>) -> nat {
    let l = match limit {
        Option::None => DEFAULT_LIMIT,
        Option::Some(l) => l,
    };
    if l < MAX_LIMIT {
        l as nat
    } else {
        MAX_LIMIT as nat
    }
}

/// The accounts that bear the role of namespace `name` in `store`.
pub open spec fn bearers_of(store: MemoryStorage, name: Seq<char>) -> Set<Seq<char>> {
    Set::new(|k: Seq<char>| stored_flags(store).contains((name, k)))
}

/// The texts of a list of accounts.
pub open spec fn texts(v: Seq<String>) -> Seq<Seq<char>> {
    v.map_values(|s: String| s@)
}

/// `page` is the page of `members` after the cursor `start`, of at most
/// `lim` accounts: members after `start`, strictly ascending, and with no
/// member after `start` left out before its last entry (nor at all when it
/// is shorter than `lim`).
pub open spec fn is_page(
    members: Set<Seq<char>>,
    start: Option<Seq<char>>,
    lim: nat,
    page: Seq<Seq<char>>,
) -> bool {
    &&& page.len() <= lim
    &&& forall|i: int|
        0 <= i < page.len() ==> members.contains(#[trigger] page[i]) && key_above(start, page[i])
    &&& forall|i: int, j: int| 0 <= i < j < page.len() ==> key_lt(#[trigger] page[i], #[trigger] page[j])
    &&& forall|m: Seq<char>|
        #![trigger members.contains(m)]
        members.contains(m) && key_above(start, m) && (page.len() < lim || (page.len() > 0
            && !key_lt(page.last(), m))) ==> page.contains(m)
}

/// Users of the library may give their own types this check.
pub trait RoleCheck {
    fn has(&self, store: &MemoryStorage, account: &str) -> Result<bool, StdError>;
}

/// A role: the accounts that bear it are kept in the store under the role's
/// name, which no two roles share.
pub struct Role<'a> {
    pub name: &'a str,
}

impl<'a> Role<'a> {
    /// The name can serve as a storage namespace.
    pub open spec fn wf(&self) -> bool {
        namespace_fits(self.name)
    }

    /// The accounts that bear the role in `store`.
    pub open spec fn bearers(&self, store: MemoryStorage) -> Set<Seq<char>> {
        bearers_of(store, self.name@)
    }

    pub fn new(name: &'a str) -> (r: Self)
        requires
            namespace_fits(name),
        ensures
            r.name == name,
            r.wf(),
    {
        Role { name }
    }

    /// Whether the account bears the role.
    pub fn has(&self, store: &MemoryStorage, account: &str) -> (r: Result<bool, StdError>)
        requires
            self.wf(),
        ensures
            r matches Ok(b) && b == self.bearers(*store).contains(account@),
    {
        Ok(flag_has(self.name, store, account))
    }

    /// Succeeds when the account bears the role, else fails with `Unauthorized`.
    pub fn check(&self, store: &MemoryStorage, account: &str) -> (r: Result<(), RbacError>)
        requires
            self.wf(),
        ensures
            r is Ok <==> self.bearers(*store).contains(account@),
            r matches Err(e) ==> e is Unauthorized,
    {
        match self.has(store, account) {
            Ok(true) => Ok(()),
            Ok(false) => Err(RbacError::Unauthorized),
            Err(e) => Err(RbacError::Std(e)),
        }
    }

    /// Gives the role to an account that does not bear it yet.
    pub fn grant(&self, store: &mut MemoryStorage, account: String) -> (r: Result<(), RbacError>)
        requires
            self.wf(),
        ensures
            self.bearers(*old(store)).contains(account@) ==> r == Err::<(), RbacError>(
                RbacError::DuplicatedRole(account),
            ) && *final(store) == *old(store),
            !self.bearers(*old(store)).contains(account@) ==> r is Ok && stored_flags(
                *final(store),
            ) == stored_flags(*old(store)).insert((self.name@, account@)),
            forall|n: Seq<char>|
                flags_decodable(*old(store), n) ==> #[trigger] flags_decodable(*final(store), n),
    {
        if flag_has(self.name, store, account.as_str()) {
            return Err(RbacError::DuplicatedRole(account));
        }
        match flag_save(self.name, store, account.as_str()) {
            Ok(()) => Ok(()),
            Err(e) => Err(RbacError::Std(e)),
        }
    }

    /// Takes the role from an account that bears it.
    pub fn revoke(&self, store: &mut MemoryStorage, account: String) -> (r: Result<(), RbacError>)
        requires
            self.wf(),
        ensures
            !self.bearers(*old(store)).contains(account@) ==> r == Err::<(), RbacError>(
                RbacError::NoRoleToRevoke(account),
            ) && *final(store) == *old(store),
            self.bearers(*old(store)).contains(account@) ==> r is Ok && stored_flags(*final(store))
                == stored_flags(*old(store)).remove((self.name@, account@)),
            forall|n: Seq<char>|
                flags_decodable(*old(store), n) ==> #[trigger] flags_decodable(*final(store), n),
    {
        if !flag_has(self.name, store, account.as_str()) {
            return Err(RbacError::NoRoleToRevoke(account));
        }
        flag_remove(self.name, store, account.as_str());
        Ok(())
    }
    /// The page of bearers after `start_after` in ascending order, of at most
    /// `effective_limit(limit)` accounts.
    pub fn all_accounts(
        &self,
        store: &MemoryStorage,
        start_after: Option<String>,
        limit: Option<u32>,
    ) -> (r: Result<Vec<String>, StdError>)
        requires
            self.wf(),
        ensures
            r matches Ok(v) ==> is_page(
                self.bearers(*store),
                cursor_view(start_after),
                effective_limit(limit),
                texts(v@),
            ) && v.len() <= MAX_LIMIT,
            flags_decodable(*store, self.name@) ==> r is Ok,
    {
        let requested: u32 = match limit {
            Some(l) => l,
            None => DEFAULT_LIMIT,
        };
        let lim: usize = if requested < MAX_LIMIT {
            requested as usize
        } else {
            MAX_LIMIT as usize
        };
        let ghost members = self.bearers(*store);
        let ghost start = cursor_view(start_after);
        let mut out: Vec<String> = Vec::new();
        let mut cursor: Option<String> = start_after;
        let mut done = false;
        while out.len() < lim && !done
            invariant
                self.wf(),
                members == self.bearers(*store),
                lim == effective_limit(limit),
                out.len() <= lim,
                out.len() == 0 ==> cursor_view(cursor) == start,
                out.len() > 0 ==> cursor_view(cursor) == Some(texts(out@).last()),
                forall|i: int|
                    0 <= i < out.len() ==> members.contains(#[trigger] texts(out@)[i]) && key_above(
                        start,
                        texts(out@)[i],
                    ),
                forall|i: int, j: int|
                    0 <= i < j < out.len() ==> key_lt(
                        #[trigger] texts(out@)[i],
                        #[trigger] texts(out@)[j],
                    ),
                forall|m: Seq<char>|
                    #![trigger members.contains(m)]
                    members.contains(m) && key_above(start, m) && !key_above(cursor_view(cursor), m)
                        ==> texts(out@).contains(m),
                done ==> forall|m: Seq<char>|
                    #![trigger members.contains(m)]
                    members.contains(m) ==> !key_above(cursor_view(cursor), m),
            decreases lim - out.len() + (if done { 0int } else { 1int }),
        {
            match flag_next(self.name, store, &cursor) {
                Err(e) => {
                    return Err(e);
                },
                Ok(None) => {
                    done = true;
                },
                Ok(Some(k)) => {
                    let ghost old_out = texts(out@);
                    proof {
                        assert(members.contains(k@));
                        if out.len() > 0 {
                            assert(members.contains(old_out[old_out.len() - 1]));
                            if start is Some {
                                lemma_key_lt_transitive(start->Some_0, old_out.last(), k@);
                            }
                            assert forall|i: int| 0 <= i < old_out.len() implies key_lt(
                                old_out[i],
                                k@,
                            ) by {
                                if i < old_out.len() - 1 {
                                    lemma_key_lt_transitive(old_out[i], old_out.last(), k@);
                                }
                            }
                        }
                    }
                    out.push(k.clone());
                    proof {
                        assert(texts(out@) =~= old_out.push(k@));
                        assert forall|m: Seq<char>|
                            members.contains(m) && key_above(start, m) && !key_lt(k@, m)
                                implies texts(out@).contains(m) by {
                            if key_above(cursor_view(cursor), m) {
                                lemma_key_lt_total(m, k@);
                                assert(texts(out@)[old_out.len() as int] == k@);
                            } else {
                                let i = choose|i: int| 0 <= i < old_out.len() && old_out[i] == m;
                                assert(texts(out@)[i] == m);
                            }
                        }
                    }
                    cursor = Some(k);
                },
            }
        }
        Ok(out)
    }
}

} // verus!
