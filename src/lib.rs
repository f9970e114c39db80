mod contract;
mod errors;
mod execute;
mod laws;
mod order;
mod query;
mod role;
mod store;

pub use contract::{
    admins, execute, instantiate, instantiate_texts, query, rbac_result, ContractError, ExecuteMsg,
    InstantiateMsg, QueryMsg,
};
pub use errors::RbacError;
pub use execute::{action_texts, attribute_texts, executed, Attribute, RbacExecuteMsg};
pub use laws::{
    law_grant_revoke_round_trip, law_grant_then_has, law_pages_join, law_revoke_grant_round_trip,
    law_transfer,
};
pub use order::{key_above, key_lt};
pub use query::{queried, AllAccountsResponse, HasRoleResponse, RbacQueryMsg, RbacQueryResponse};
pub use role::{bearers_of, effective_limit, is_page, texts, Role, RoleCheck, DEFAULT_LIMIT, MAX_LIMIT};
pub use store::{cursor_view, flags_decodable, stored_flags};
