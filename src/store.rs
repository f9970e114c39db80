//! The persistent store behind a role: a `MemoryStorage` holding the
//! `cw_storage_plus::Map<&str, bool>` of each role's bearers.
use vstd::prelude::*;
use vstd::string::StringSliceAdditionalSpecFns;

use cosmwasm_std::{MemoryStorage, Order, StdError};
use cw_storage_plus::Bound;

use crate::order::{key_above, key_lt};

verus! {

#[verifier::external_type_specification]
#[verifier::external_body]
pub struct ExMemoryStorage(MemoryStorage);

#[verifier::external_type_specification]
#[verifier::external_body]
pub struct ExStdError(StdError);

/// The entries of string-keyed `cw_storage_plus` maps that a storage holds:
/// the pairs `(ns, key)` such that the storage has a value under the
/// length-prefixed `ns` followed by the UTF-8 bytes of `key`, which is where
/// `cw_storage_plus::Map::<&str, _>::new(ns)` keeps the entry of `key`.
pub uninterp spec fn stored_flags(s: MemoryStorage) -> Set<(Seq<char>, Seq<char>)>;

/// Every entry that a storage holds in the map of namespace `ns` has a UTF-8
/// key and a JSON boolean value, so that a scan of the map decodes them all.
pub uninterp spec fn flags_decodable(s: MemoryStorage, ns: Seq<char>) -> bool;

/// The text of a cursor, if there is one.
pub open spec fn cursor_view(c: Option<String>) -> Option<Seq<char>> {
    match c {
        Option::None => Option::None,
        Option::Some(s) => Option::Some(s@),
    }
}

/// A namespace that `cw_storage_plus` can length-prefix (it panics beyond this).
pub open spec fn namespace_fits(ns: &str) -> bool {
    ns.spec_bytes().len() <= 0xFFFF
}

/// Relies on `cw_storage_plus::Map::has`: whether an entry is stored under
/// the key in the map of namespace `ns`.
#[verifier::external_body]
pub(crate) fn flag_has(ns: &str, store: &MemoryStorage, key: &str) -> (r: bool)
    requires
        namespace_fits(ns),
    ensures
        r == stored_flags(*store).contains((ns@, key@)),
{
    cw_storage_plus::Map::<&str, bool>::new(ns).has(store, key)
}

/// Relies on `cw_storage_plus::Map::save`: stores the flag `true`, serialized
/// by `serde_json_wasm` (which cannot fail on a boolean), under the key. The
/// key is text and the value a JSON boolean, so every map still decodes.
#[verifier::external_body]
pub(crate) fn flag_save(ns: &str, store: &mut MemoryStorage, key: &str) -> (r: Result<
    (),
    StdError,
>)
    requires
        namespace_fits(ns),
    ensures
        r is Ok,
        stored_flags(*final(store)) == stored_flags(*old(store)).insert((ns@, key@)),
        forall|n: Seq<char>|
            flags_decodable(*old(store), n) ==> #[trigger] flags_decodable(*final(store), n),
{
    cw_storage_plus::Map::<&str, bool>::new(ns).save(store, key, &true)
}

/// Relies on `cw_storage_plus::Map::remove`: deletes the entry under the key,
/// which leaves every other entry as it was.
#[verifier::external_body]
pub(crate) fn flag_remove(ns: &str, store: &mut MemoryStorage, key: &str)
    requires
        namespace_fits(ns),
    ensures
        stored_flags(*final(store)) == stored_flags(*old(store)).remove((ns@, key@)),
        forall|n: Seq<char>|
            flags_decodable(*old(store), n) ==> #[trigger] flags_decodable(*final(store), n),
{
    cw_storage_plus::Map::<&str, bool>::new(ns).remove(store, key)
}

/// Relies on `cw_storage_plus::Map::keys` in ascending order from an
/// exclusive bound: the first key of the map after the cursor, in byte order
/// of the keys (the code-point order of their text). Keys and values are
/// decoded on the way; an entry that does not decode is the only error.
#[verifier::external_body]
pub(crate) fn flag_next(ns: &str, store: &MemoryStorage, after: &Option<String>) -> (r: Result<
    Option<String>,
    StdError,
>)
    requires
        namespace_fits(ns),
    ensures
        r matches Ok(Some(k)) ==> stored_flags(*store).contains((ns@, k@)) && key_above(
            cursor_view(*after),
            k@,
        ) && forall|m: Seq<char>|
            #![trigger stored_flags(*store).contains((ns@, m))]
            stored_flags(*store).contains((ns@, m)) && key_above(cursor_view(*after), m)
                ==> !key_lt(m, k@),
        flags_decodable(*store, ns@) ==> r is Ok,
        r matches Ok(None) ==> forall|m: Seq<char>|
            #![trigger stored_flags(*store).contains((ns@, m))]
            stored_flags(*store).contains((ns@, m)) ==> !key_above(cursor_view(*after), m),
{
    let min = after.as_deref().map(|a| Bound::exclusive(a));
    cw_storage_plus::Map::<&str, bool>::new(ns).keys(store, min, None, Order::Ascending).next().transpose()
}

} // verus!
