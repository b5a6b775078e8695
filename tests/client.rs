use nectarflower::{
    check_status, Account, AccountParams, AccountsResponse, CallStep, Client, ClientError,
    DiscoveryError, Json, NodeData, RpcError, RpcRequest, RpcResponse, DEFAULT_NODE,
    FIND_ACCOUNTS_METHOD,
};

fn strings(items: &[&str]) -> Vec<String> {
    items.iter().map(|s| s.to_string()).collect()
}

fn pairs(items: &[(&str, &str)]) -> Vec<(String, String)> {
    items.iter().map(|(k, v)| (k.to_string(), v.to_string())).collect()
}

/// Runs a call over the client's endpoints, where the endpoint at index `i`
/// answers `answers[i]`; returns the result and the indices contacted.
fn run_call(client: &Client, answers: &[Result<u32, ClientError>]) -> (Result<u32, ClientError>, Vec<usize>) {
    let mut contacted = Vec::new();
    let mut step = client.begin_call::<u32>();
    loop {
        match step {
            CallStep::Done(r) => return (r, contacted),
            CallStep::Send(i) => {
                contacted.push(i);
                step = client.after_attempt(i, answers[i].clone());
            }
        }
    }
}

fn client_with(nodes: &[&str]) -> Client {
    Client { nodes: strings(nodes), failing_nodes: Vec::new() }
}

#[test]
fn new_client_has_default_node() {
    let c = Client::new();
    assert_eq!(c.nodes, vec![DEFAULT_NODE.to_string()]);
    assert_eq!(DEFAULT_NODE, "https://api.hive.blog");
    assert!(c.failing_nodes.is_empty());
}

#[test]
fn set_nodes_filters_failing_and_invalid() {
    let mut c = Client::new();
    c.set_nodes(
        strings(&["https://a.example", "not a url", "https://b.example", "https://c.example", "https://a.example"]),
        pairs(&[("https://b.example", "down")]),
    );
    assert_eq!(c.nodes, strings(&["https://a.example", "https://c.example", "https://a.example"]));
    assert_eq!(c.failing_nodes, pairs(&[("https://b.example", "down")]));
}

#[test]
fn set_nodes_with_nothing_left() {
    let mut c = Client::new();
    c.set_nodes(strings(&["", "https://x"]), pairs(&[("https://x", "slow")]));
    assert!(c.nodes.is_empty());
}

#[test]
fn call_stops_at_first_success() {
    let c = client_with(&["https://a", "https://b", "https://c"]);
    let answers = vec![Err(ClientError::NoResult), Ok(7), Ok(9)];
    let (r, contacted) = run_call(&c, &answers);
    assert_eq!(r, Ok(7));
    assert_eq!(contacted, vec![0, 1]);
}

#[test]
fn call_returns_last_error_when_all_fail() {
    let c = client_with(&["https://a", "https://b"]);
    let answers = vec![Err(ClientError::Status(503)), Err(ClientError::Request("timed out".to_string()))];
    let (r, contacted) = run_call(&c, &answers);
    assert_eq!(r, Err(ClientError::Request("timed out".to_string())));
    assert_eq!(contacted, vec![0, 1]);
}

#[test]
fn call_without_nodes_contacts_nothing() {
    let c = client_with(&[]);
    let (r, contacted) = run_call(&c, &[]);
    assert_eq!(r, Err(ClientError::NoNodesAvailable));
    assert!(contacted.is_empty());
}

#[test]
fn call_fails_over_after_server_error() {
    let c = client_with(&["https://node1", "https://node2"]);
    let first = check_status(500).map(|_| 0u32);
    assert_eq!(first, Err(ClientError::Status(500)));
    let second_resp = RpcResponse { jsonrpc: "2.0".to_string(), result: Some(42u32), error: None, id: 1 };
    assert_eq!(check_status(200), Ok(()));
    let answers = vec![first, second_resp.into_outcome()];
    let (r, contacted) = run_call(&c, &answers);
    assert_eq!(r, Ok(42));
    assert_eq!(contacted, vec![0, 1]);
}

#[test]
fn status_bounds() {
    assert_eq!(check_status(299), Ok(()));
    assert_eq!(check_status(199), Err(ClientError::Status(199)));
    assert_eq!(check_status(300), Err(ClientError::Status(300)));
}

#[test]
fn response_error_wins_over_result() {
    let resp = RpcResponse {
        jsonrpc: "2.0".to_string(),
        result: Some(1u32),
        error: Some(RpcError { code: -32000, message: "bad".to_string() }),
        id: 1,
    };
    assert_eq!(resp.into_outcome(), Err(ClientError::Rpc(-32000, "bad".to_string())));
}

#[test]
fn response_without_result_is_malformed() {
    let resp: RpcResponse<u32> = RpcResponse { jsonrpc: "2.0".to_string(), result: None, error: None, id: 1 };
    assert_eq!(resp.into_outcome(), Err(ClientError::NoResult));
}

#[test]
fn request_round_trip_keeps_fields() {
    let req = RpcRequest::new("condenser_api.get_dynamic_global_properties", vec![3u32, 4]);
    assert_eq!(req.jsonrpc, "2.0");
    assert_eq!(req.id, 1);
    let mut obj = serde_json::Map::new();
    obj.insert("jsonrpc".to_string(), serde_json::Value::from(req.jsonrpc.clone()));
    obj.insert("method".to_string(), serde_json::Value::from(req.method.clone()));
    obj.insert("params".to_string(), serde_json::Value::from(req.params.clone()));
    obj.insert("id".to_string(), serde_json::Value::from(req.id));
    let text = serde_json::Value::Object(obj).to_string();
    let back: serde_json::Value = serde_json::from_str(&text).unwrap();
    let decoded = RpcRequest {
        jsonrpc: back["jsonrpc"].as_str().unwrap().to_string(),
        method: back["method"].as_str().unwrap().to_string(),
        params: back["params"].as_array().unwrap().iter().map(|v| v.as_u64().unwrap() as u32).collect::<Vec<u32>>(),
        id: back["id"].as_u64().unwrap() as u32,
    };
    assert_eq!(decoded.method, req.method);
    assert_eq!(decoded.params, req.params);
    assert_eq!(decoded.id, req.id);
}

#[test]
fn metadata_with_nodes_and_failing_nodes() {
    let data = NodeData::from_metadata(r#"{"nodes":["https://a","https://b"],"failing_nodes":{"https://b":"down"}}"#)
        .unwrap();
    assert_eq!(data.nodes, strings(&["https://a", "https://b"]));
    assert_eq!(data.failing_nodes, pairs(&[("https://b", "down")]));
    let mut c = Client::new();
    c.set_nodes(data.nodes, data.failing_nodes);
    assert_eq!(c.nodes, strings(&["https://a"]));
}

#[test]
fn metadata_without_nodes_fails() {
    let r = NodeData::from_metadata(r#"{"failing_nodes":{}}"#);
    assert_eq!(r.unwrap_err(), DiscoveryError::NoNodesInMetadata);
}

#[test]
fn metadata_with_malformed_failing_nodes_succeeds() {
    let data = NodeData::from_metadata(r#"{"nodes":["https://a"],"failing_nodes":"oops"}"#).unwrap();
    assert_eq!(data.nodes, strings(&["https://a"]));
    assert!(data.failing_nodes.is_empty());
}

#[test]
fn metadata_with_malformed_nodes_fails() {
    assert_eq!(NodeData::from_metadata(r#"{"nodes":"https://a"}"#).unwrap_err(), DiscoveryError::NodesParse);
    assert_eq!(NodeData::from_metadata(r#"{"nodes":["https://a", 3]}"#).unwrap_err(), DiscoveryError::NodesParse);
}

#[test]
fn metadata_that_is_not_json_fails() {
    assert!(matches!(NodeData::from_metadata("{nodes"), Err(DiscoveryError::MetadataParse(_))));
    assert!(matches!(NodeData::from_metadata(""), Err(DiscoveryError::MetadataParse(_))));
}

#[test]
fn metadata_that_is_not_an_object_has_no_nodes() {
    assert_eq!(NodeData::from_metadata("[1, 2]").unwrap_err(), DiscoveryError::NoNodesInMetadata);
}

#[test]
fn document_reads_nodes_directly() {
    let doc = Json::Object(vec![
        ("nodes".to_string(), Json::Array(vec![Json::Str("https://x".to_string())])),
        ("failing_nodes".to_string(), Json::Object(vec![("https://y".to_string(), Json::Number("1".to_string()))])),
    ]);
    let data = NodeData::from_document(&doc).unwrap();
    assert_eq!(data.nodes, strings(&["https://x"]));
    assert!(data.failing_nodes.is_empty());
}

#[test]
fn account_request_names_the_account() {
    let (method, params) = Client::account_request("alice");
    assert_eq!(method, FIND_ACCOUNTS_METHOD);
    assert_eq!(method, "database_api.find_accounts");
    assert_eq!(params.accounts, strings(&["alice"]));
    assert_eq!(AccountParams::for_account("bob").accounts, strings(&["bob"]));
}

fn account(name: &str, meta: &str) -> Account {
    Account { name: name.to_string(), json_metadata: meta.to_string() }
}

#[test]
fn discovery_picks_the_named_account() {
    let resp = AccountsResponse {
        accounts: vec![account("other", "{}"), account("nectarflower", r#"{"nodes":["https://n"]}"#)],
    };
    let data = Client::get_nodes_from_account("nectarflower", Ok(resp)).unwrap();
    assert_eq!(data.nodes, strings(&["https://n"]));
}

#[test]
fn discovery_errors() {
    let empty = AccountsResponse { accounts: Vec::new() };
    assert_eq!(Client::get_nodes_from_account("x", Ok(empty)).unwrap_err(), DiscoveryError::AccountNotFound);
    assert_eq!(
        Client::get_nodes_from_account("x", Err(ClientError::NoNodesAvailable)).unwrap_err(),
        DiscoveryError::FetchAccount(ClientError::NoNodesAvailable)
    );
}

#[test]
fn update_installs_or_leaves_registry() {
    let mut c = Client::new();
    let bad = AccountsResponse { accounts: vec![account("acc", r#"{"failing_nodes":{}}"#)] };
    assert_eq!(c.update_nodes_from_account("acc", Ok(bad)), Err(DiscoveryError::NoNodesInMetadata));
    assert_eq!(c.nodes, vec![DEFAULT_NODE.to_string()]);
    let good = AccountsResponse {
        accounts: vec![account("acc", r#"{"nodes":["https://a","https://b"],"failing_nodes":{"https://a":"x"}}"#)],
    };
    assert_eq!(c.update_nodes_from_account("acc", Ok(good)), Ok(()));
    assert_eq!(c.nodes, strings(&["https://b"]));
    assert_eq!(c.failing_nodes, pairs(&[("https://a", "x")]));
}
