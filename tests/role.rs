use cosmwasm_rbac::{RbacError, Role};
use cosmwasm_std::{MemoryStorage, Storage};

fn names(v: &[&str]) -> Vec<String> {
    v.iter().map(|s| s.to_string()).collect()
}

#[test]
fn grant_gives_the_role() {
    let mut store = MemoryStorage::new();
    let role = Role::new("admins");
    assert_eq!(role.has(&store, "alice"), Ok(false));
    assert_eq!(role.grant(&mut store, "alice".to_string()), Ok(()));
    assert_eq!(role.has(&store, "alice"), Ok(true));
    assert_eq!(role.has(&store, "bob"), Ok(false));
}

#[test]
fn grant_twice_is_duplicated() {
    let mut store = MemoryStorage::new();
    let role = Role::new("admins");
    role.grant(&mut store, "alice".to_string()).unwrap();
    assert_eq!(
        role.grant(&mut store, "alice".to_string()),
        Err(RbacError::DuplicatedRole("alice".to_string()))
    );
    assert_eq!(role.has(&store, "alice"), Ok(true));
    assert_eq!(role.all_accounts(&store, None, None).unwrap(), names(&["alice"]));
}

#[test]
fn revoke_without_role_fails() {
    let mut store = MemoryStorage::new();
    let role = Role::new("admins");
    assert_eq!(
        role.revoke(&mut store, "alice".to_string()),
        Err(RbacError::NoRoleToRevoke("alice".to_string()))
    );
    assert_eq!(role.has(&store, "alice"), Ok(false));
}

#[test]
fn grant_then_revoke_restores_membership() {
    let mut store = MemoryStorage::new();
    let role = Role::new("admins");
    role.grant(&mut store, "bob".to_string()).unwrap();
    let before = role.all_accounts(&store, None, None).unwrap();
    role.grant(&mut store, "alice".to_string()).unwrap();
    role.revoke(&mut store, "alice".to_string()).unwrap();
    assert_eq!(role.has(&store, "alice"), Ok(false));
    assert_eq!(role.all_accounts(&store, None, None).unwrap(), before);
}

#[test]
fn check_follows_has() {
    let mut store = MemoryStorage::new();
    let role = Role::new("admins");
    role.grant(&mut store, "alice".to_string()).unwrap();
    assert_eq!(role.check(&store, "alice"), Ok(()));
    assert_eq!(role.check(&store, "bob"), Err(RbacError::Unauthorized));
}

#[test]
fn roles_do_not_share_bearers() {
    let mut store = MemoryStorage::new();
    let admins = Role::new("admins");
    let minters = Role::new("minters");
    admins.grant(&mut store, "alice".to_string()).unwrap();
    assert_eq!(minters.has(&store, "alice"), Ok(false));
    minters.grant(&mut store, "alice".to_string()).unwrap();
    minters.revoke(&mut store, "alice".to_string()).unwrap();
    assert_eq!(admins.has(&store, "alice"), Ok(true));
}

#[test]
fn pages_follow_one_another() {
    let mut store = MemoryStorage::new();
    let role = Role::new("admins");
    for a in ["dave", "bob", "carol", "alice"] {
        role.grant(&mut store, a.to_string()).unwrap();
    }
    let first = role.all_accounts(&store, None, Some(2)).unwrap();
    assert_eq!(first, names(&["alice", "bob"]));
    let rest = role.all_accounts(&store, Some("bob".to_string()), Some(10)).unwrap();
    assert_eq!(rest, names(&["carol", "dave"]));
}

#[test]
fn page_after_cursor_that_is_no_bearer() {
    let mut store = MemoryStorage::new();
    let role = Role::new("admins");
    for a in ["alice", "bob", "carol"] {
        role.grant(&mut store, a.to_string()).unwrap();
    }
    let page = role.all_accounts(&store, Some("b".to_string()), None).unwrap();
    assert_eq!(page, names(&["bob", "carol"]));
    let empty = role.all_accounts(&store, Some("carol".to_string()), None).unwrap();
    assert!(empty.is_empty());
}

#[test]
fn page_size_is_capped() {
    let mut store = MemoryStorage::new();
    let role = Role::new("admins");
    for i in 0..40 {
        role.grant(&mut store, format!("account{:02}", i)).unwrap();
    }
    let all = role.all_accounts(&store, None, Some(1000)).unwrap();
    assert_eq!(all.len(), 30);
    assert_eq!(all[0], "account00");
    assert_eq!(all[29], "account29");
    let default = role.all_accounts(&store, None, None).unwrap();
    assert_eq!(default.len(), 10);
    assert_eq!(default[9], "account09");
    let none = role.all_accounts(&store, None, Some(0)).unwrap();
    assert!(none.is_empty());
}

#[test]
fn empty_role_lists_nothing() {
    let store = MemoryStorage::new();
    let role = Role::new("admins");
    assert!(role.all_accounts(&store, None, None).unwrap().is_empty());
}

#[test]
fn accounts_are_in_byte_order() {
    let mut store = MemoryStorage::new();
    let role = Role::new("admins");
    for a in ["b", "B", "ab", "a", "é"] {
        role.grant(&mut store, a.to_string()).unwrap();
    }
    let all = role.all_accounts(&store, None, None).unwrap();
    assert_eq!(all, names(&["B", "a", "ab", "b", "é"]));
}

#[test]
fn undecodable_key_is_a_storage_error() {
    let mut store = MemoryStorage::new();
    let role = Role::new("admins");
    role.grant(&mut store, "alice".to_string()).unwrap();
    let mut raw = vec![0u8, 6];
    raw.extend_from_slice(b"admins");
    raw.push(0xff);
    store.set(&raw, b"true");
    assert!(role.all_accounts(&store, None, None).is_err());
    assert_eq!(role.all_accounts(&store, None, Some(1)).unwrap(), names(&["alice"]));
    assert_eq!(role.has(&store, "alice"), Ok(true));
}
