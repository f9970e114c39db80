//! What holds across several operations on a role.
use vstd::prelude::*;

use cosmwasm_std::MemoryStorage;

use crate::errors::RbacError;
use crate::execute::{executed, Attribute, RbacExecuteMsg};
use crate::order::{key_above, key_lt, lemma_key_lt_asymmetric, lemma_key_lt_irreflexive, lemma_key_lt_transitive};
use crate::role::{bearers_of, is_page};
use crate::store::stored_flags;

verus! {

/// After a grant to an account that did not bear the role has succeeded,
/// the account bears it, and every other account bears it exactly when it
/// did before.
pub proof fn law_grant_then_has(
    before: MemoryStorage,
    after: MemoryStorage,
    name: Seq<char>,
    account: Seq<char>,
)
    requires
        !bearers_of(before, name).contains(account),
        stored_flags(after) == stored_flags(before).insert((name, account)),
    ensures
        bearers_of(after, name).contains(account),
        forall|other: Seq<char>|
            other != account ==> (#[trigger] bearers_of(after, name).contains(other)
                == bearers_of(before, name).contains(other)),
{
    assert(stored_flags(after).contains((name, account)));
}

/// A successful grant followed by the revoke of the same account leaves the
/// store holding what it held before the grant.
pub proof fn law_grant_revoke_round_trip(
    s0: MemoryStorage,
    s1: MemoryStorage,
    s2: MemoryStorage,
    name: Seq<char>,
    account: Seq<char>,
)
    requires
        !bearers_of(s0, name).contains(account),
        stored_flags(s1) == stored_flags(s0).insert((name, account)),
        stored_flags(s2) == stored_flags(s1).remove((name, account)),
    ensures
        stored_flags(s2) == stored_flags(s0),
        bearers_of(s2, name) == bearers_of(s0, name),
{
    assert(!stored_flags(s0).contains((name, account)));
    assert(stored_flags(s2) =~= stored_flags(s0));
    assert(bearers_of(s2, name) =~= bearers_of(s0, name));
}

/// A successful revoke of a bearer followed by a grant to the same account
/// leaves the store holding what it held before the revoke.
pub proof fn law_revoke_grant_round_trip(
    s0: MemoryStorage,
    s1: MemoryStorage,
    s2: MemoryStorage,
    name: Seq<char>,
    account: Seq<char>,
)
    requires
        bearers_of(s0, name).contains(account),
        stored_flags(s1) == stored_flags(s0).remove((name, account)),
        stored_flags(s2) == stored_flags(s1).insert((name, account)),
    ensures
        stored_flags(s2) == stored_flags(s0),
        bearers_of(s2, name) == bearers_of(s0, name),
{
    assert(stored_flags(s0).contains((name, account)));
    assert(stored_flags(s2) =~= stored_flags(s0));
    assert(bearers_of(s2, name) =~= bearers_of(s0, name));
}

/// Two pages fetched one after the other, the second from the last entry of
/// a full first page, together form one page: no account is in both, and no
/// bearer between them is missed.
pub proof fn law_pages_join(
    members: Set<Seq<char>>,
    start: Option<Seq<char>>,
    n1: nat,
    p1: Seq<Seq<char>>,
    n2: nat,
    p2: Seq<Seq<char>>,
)
    requires
        is_page(members, start, n1, p1),
        p1.len() == n1,
        n1 > 0,
        is_page(members, Option::Some(p1.last()), n2, p2),
    ensures
        is_page(members, start, n1 + n2, p1 + p2),
        forall|a: Seq<char>| p1.contains(a) ==> !p2.contains(a),
{
    let p = p1 + p2;
    let last = p1.last();
    assert forall|i: int| 0 <= i < p1.len() implies #[trigger] p1[i] == last || key_lt(
        p1[i],
        last,
    ) by {
        if i < p1.len() - 1 {
            assert(key_lt(p1[i], p1[p1.len() - 1]));
        }
    }
    assert forall|i: int| 0 <= i < p.len() implies members.contains(#[trigger] p[i]) && key_above(
        start,
        p[i],
    ) by {
        if i >= p1.len() {
            assert(p[i] == p2[i - p1.len()]);
            assert(members.contains(p1[p1.len() - 1]));
            if start is Some {
                lemma_key_lt_transitive(start->Some_0, last, p[i]);
            }
        }
    }
    assert forall|i: int, j: int| 0 <= i < j < p.len() implies key_lt(
        #[trigger] p[i],
        #[trigger] p[j],
    ) by {
        if j >= p1.len() {
            assert(p[j] == p2[j - p1.len()]);
            if i < p1.len() {
                if p1[i] != last {
                    lemma_key_lt_transitive(p1[i], last, p[j]);
                }
            } else {
                assert(p[i] == p2[i - p1.len()]);
            }
        }
    }
    assert forall|m: Seq<char>|
        members.contains(m) && key_above(start, m) && (p.len() < n1 + n2 || (p.len() > 0
            && !key_lt(p.last(), m))) implies p.contains(m) by {
        if key_lt(last, m) {
            if p2.len() > 0 {
                assert(p.last() == p2.last());
            }
            assert(p2.contains(m));
            let k = choose|k: int| 0 <= k < p2.len() && p2[k] == m;
            assert(p[k + p1.len()] == m);
        } else {
            assert(p1.contains(m));
            let k = choose|k: int| 0 <= k < p1.len() && p1[k] == m;
            assert(p[k] == m);
        }
    }
    assert forall|a: Seq<char>| p1.contains(a) implies !p2.contains(a) by {
        let i = choose|i: int| 0 <= i < p1.len() && p1[i] == a;
        if p2.contains(a) {
            let j = choose|j: int| 0 <= j < p2.len() && p2[j] == a;
            assert(key_lt(last, a));
            if a != last {
                lemma_key_lt_asymmetric(a, last);
            } else {
                lemma_key_lt_irreflexive(a);
            }
        }
    }
}

/// A transfer by a bearer to an account that does not bear the role succeeds
/// and leaves the sender without the role and the target with it;
/// one by an account that does not bear the role fails as unauthorized and
/// changes nothing.
pub proof fn law_transfer(
    name: Seq<char>,
    before: MemoryStorage,
    after: MemoryStorage,
    sender: Seq<char>,
    to: String,
    r: Result<Vec<Attribute>, RbacError>,
)
    requires
        executed(name, before, after, sender, RbacExecuteMsg::Transfer { to }, r),
    ensures
        bearers_of(before, name).contains(sender) && !bearers_of(before, name).contains(to@)
            ==> r is Ok && !bearers_of(after, name).contains(sender) && bearers_of(
            after,
            name,
        ).contains(to@),
        !bearers_of(before, name).contains(sender) ==> r == Err::<Vec<Attribute>, RbacError>(
            RbacError::Unauthorized,
        ) && after == before,
{
    if bearers_of(before, name).contains(sender) && !bearers_of(before, name).contains(to@) {
        assert(sender != to@);
        assert(stored_flags(after).contains((name, to@)));
        assert(!stored_flags(after).contains((name, sender)));
    }
}

} // verus!
