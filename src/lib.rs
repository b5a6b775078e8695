//! A client for Hive JSON-RPC nodes: the request envelope, a registry of
//! endpoints with failover dispatch, and discovery of endpoints from account
//! metadata.

mod discovery;
mod dispatch;
mod error;
mod json;
mod registry;
mod rpc;

pub use error::{ClientError, DiscoveryError};
pub use registry::{is_failing, keeps_node, keep_pred, kept_nodes, url_parses, Client, DEFAULT_NODE};
pub use rpc::{
    check_status, response_outcome, status_ok, RpcError, RpcRequest, RpcResponse, JSONRPC_VERSION,
    REQUEST_ID,
};
pub use dispatch::{
    dispatch, drive, first_step, lemma_first_success_wins, lemma_last_failure_wins, lemma_no_nodes,
    next_step, CallStep,
};
pub use json::{
    get, json_text_value, member, string_list, string_map, to_string_list, to_string_map,
    Json,
};
pub use discovery::{
    discovery_outcome, failing_of, find_account, lemma_malformed_failing_nodes_ignored,
    lemma_missing_nodes_fails, metadata_outcome, metadata_text_outcome, yields,
    Account, AccountParams, AccountsResponse, NodeData, NodeLists, FAILING_NODES_KEY,
    FIND_ACCOUNTS_METHOD, NODES_KEY,
};
