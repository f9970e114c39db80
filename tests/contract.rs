use cosmwasm_rbac::{
    execute, instantiate, query, Attribute, ContractError, ExecuteMsg, InstantiateMsg, QueryMsg,
    RbacError, RbacExecuteMsg, RbacQueryMsg, RbacQueryResponse, Role,
};
use cosmwasm_std::MemoryStorage;

fn pairs(v: &[Attribute]) -> Vec<(String, String)> {
    v.iter().map(|a| (a.key.clone(), a.value.clone())).collect()
}

fn pair(k: &str, v: &str) -> (String, String) {
    (k.to_string(), v.to_string())
}

fn has_role(store: &MemoryStorage, address: &str) -> bool {
    let msg = QueryMsg::Admin(RbacQueryMsg::HasRole { address: address.to_string() });
    match query(store, msg) {
        Ok(RbacQueryResponse::HasRole(h)) => h.has,
        _ => panic!("unexpected answer"),
    }
}

fn setup() -> MemoryStorage {
    let mut store = MemoryStorage::new();
    instantiate(&mut store, "creator".to_string(), InstantiateMsg {}).unwrap();
    store
}

#[test]
fn instantiate_makes_sender_admin() {
    let mut store = MemoryStorage::new();
    let attrs = instantiate(&mut store, "creator".to_string(), InstantiateMsg {}).unwrap();
    assert_eq!(pairs(&attrs), vec![pair("method", "instantiate"), pair("owner", "creator")]);
    assert!(has_role(&store, "creator"));
    assert!(!has_role(&store, "other"));
}

#[test]
fn instantiate_twice_is_duplicated() {
    let mut store = setup();
    let r = instantiate(&mut store, "creator".to_string(), InstantiateMsg {});
    assert_eq!(r.unwrap_err(), ContractError::Rbac(RbacError::DuplicatedRole("creator".to_string())));
}

#[test]
fn admin_grants_and_revokes() {
    let mut store = setup();
    let grant = ExecuteMsg::Admin(RbacExecuteMsg::Grant { address: "bob".to_string() });
    let attrs = execute(&mut store, "creator".to_string(), grant).unwrap();
    assert_eq!(
        pairs(&attrs),
        vec![pair("action", "grant"), pair("role", "admins"), pair("address", "bob")]
    );
    assert!(has_role(&store, "bob"));
    let revoke = ExecuteMsg::Admin(RbacExecuteMsg::Revoke { address: "creator".to_string() });
    let attrs = execute(&mut store, "bob".to_string(), revoke).unwrap();
    assert_eq!(
        pairs(&attrs),
        vec![pair("action", "revoke"), pair("role", "admins"), pair("address", "creator")]
    );
    assert!(!has_role(&store, "creator"));
}

#[test]
fn non_admin_cannot_execute() {
    let mut store = setup();
    let grant = ExecuteMsg::Admin(RbacExecuteMsg::Grant { address: "mallory".to_string() });
    let r = execute(&mut store, "mallory".to_string(), grant);
    assert_eq!(r.unwrap_err(), ContractError::Rbac(RbacError::Unauthorized));
    assert!(!has_role(&store, "mallory"));
}

#[test]
fn transfer_moves_the_role() {
    let mut store = setup();
    let msg = ExecuteMsg::Admin(RbacExecuteMsg::Transfer { to: "heir".to_string() });
    let attrs = execute(&mut store, "creator".to_string(), msg).unwrap();
    assert_eq!(
        pairs(&attrs),
        vec![
            pair("action", "revoke"),
            pair("role", "admins"),
            pair("address", "creator"),
            pair("action", "grant"),
            pair("role", "admins"),
            pair("address", "heir"),
        ]
    );
    assert!(!has_role(&store, "creator"));
    assert!(has_role(&store, "heir"));
}

#[test]
fn transfer_by_non_holder_is_unauthorized() {
    let mut store = MemoryStorage::new();
    let role = Role::new("admins");
    role.grant(&mut store, "alice".to_string()).unwrap();
    let msg = RbacExecuteMsg::Transfer { to: "bob".to_string() };
    let r = role.handle_execute(&mut store, "mallory".to_string(), msg);
    assert_eq!(r.unwrap_err(), RbacError::Unauthorized);
    assert_eq!(role.all_accounts(&store, None, None).unwrap(), vec!["alice".to_string()]);
}

#[test]
fn transfer_to_holder_changes_nothing() {
    let mut store = setup();
    let grant = ExecuteMsg::Admin(RbacExecuteMsg::Grant { address: "bob".to_string() });
    execute(&mut store, "creator".to_string(), grant).unwrap();
    let msg = ExecuteMsg::Admin(RbacExecuteMsg::Transfer { to: "bob".to_string() });
    let r = execute(&mut store, "creator".to_string(), msg);
    assert_eq!(r.unwrap_err(), ContractError::Rbac(RbacError::DuplicatedRole("bob".to_string())));
    assert!(has_role(&store, "creator"));
    assert!(has_role(&store, "bob"));
}

#[test]
fn transfer_to_self_keeps_the_role() {
    let mut store = setup();
    let msg = ExecuteMsg::Admin(RbacExecuteMsg::Transfer { to: "creator".to_string() });
    execute(&mut store, "creator".to_string(), msg).unwrap();
    assert!(has_role(&store, "creator"));
}

#[test]
fn query_lists_admins() {
    let mut store = setup();
    for a in ["carol", "alice"] {
        let grant = ExecuteMsg::Admin(RbacExecuteMsg::Grant { address: a.to_string() });
        execute(&mut store, "creator".to_string(), grant).unwrap();
    }
    let msg = QueryMsg::Admin(RbacQueryMsg::AllAccounts { starts_after: None, limit: Some(2) });
    match query(&store, msg) {
        Ok(RbacQueryResponse::AllAccounts(a)) => {
            assert_eq!(a.accounts, vec!["alice".to_string(), "carol".to_string()])
        }
        _ => panic!("unexpected answer"),
    }
    let msg = QueryMsg::Admin(RbacQueryMsg::AllAccounts {
        starts_after: Some("carol".to_string()),
        limit: None,
    });
    match query(&store, msg) {
        Ok(RbacQueryResponse::AllAccounts(a)) => assert_eq!(a.accounts, vec!["creator".to_string()]),
        _ => panic!("unexpected answer"),
    }
}
