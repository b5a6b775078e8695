use vstd::prelude::*;
use crate::error::{ClientError, DiscoveryError};
use crate::json::{get, json_text_value, parse_json, string_list, string_map, to_string_list, to_string_map, Json};
use crate::registry::{kept_nodes, Client};

verus! {

/// The method that looks accounts up by name.
pub const FIND_ACCOUNTS_METHOD: &'static str = "database_api.find_accounts";

/// The metadata member that lists candidate endpoints.
pub const NODES_KEY: &'static str = "nodes";

/// The metadata member that maps failing endpoints to reasons.
pub const FAILING_NODES_KEY: &'static str = "failing_nodes";

/// The parameters of `database_api.find_accounts`.
#[derive(Debug, Clone)]
pub struct AccountParams {
    pub accounts: Vec<String>,
}

/// An account as `database_api.find_accounts` returns it.
#[derive(Debug, Clone)]
pub struct Account {
    pub name: String,
    pub json_metadata: String,
}

/// The result of `database_api.find_accounts`.
#[derive(Debug, Clone)]
pub struct AccountsResponse {
    pub accounts: Vec<Account>,
}

/// Candidate endpoints and failing endpoints read from account metadata.
#[derive(Debug, Clone)]
pub struct NodeData {
    pub nodes: Vec<String>,
    pub failing_nodes: Vec<(String, String)>,
}

/// Candidates and failing endpoints, as sequences.
pub type NodeLists = (Seq<String>, Seq<(String, String)>);

/// The first account named `name`.
pub open spec fn find_account(accounts: Seq<Account>, name: Seq<char>) -> Option<Account>
    decreases accounts.len(),
{
    if accounts.len() == 0 {
        None
    } else if accounts[0].name@ == name {
        Some(accounts[0])
    } else {
        find_account(accounts.drop_first(), name)
    }
}

/// The failing endpoints of a metadata document: the `failing_nodes` object
/// when it maps strings to strings, else none.
pub open spec fn failing_of(doc: Json) -> Seq<(String, String)> {
    match get(doc, FAILING_NODES_KEY@) {
        Some(f) => match string_map(f) {
            Some(m) => m,
            None => Seq::empty(),
        },
        None => Seq::empty(),
    }
}

/// What a metadata document yields: `nodes` is required and must be a list of
/// strings; `failing_nodes` is optional and read leniently.
pub open spec fn metadata_outcome(doc: Json) -> Result<NodeLists, DiscoveryError> {
    match get(doc, NODES_KEY@) {
        None => Err(DiscoveryError::NoNodesInMetadata),
        Some(n) => match string_list(n) {
            None => Err(DiscoveryError::NodesParse),
            Some(nodes) => Ok((nodes, failing_of(doc))),
        },
    }
}

/// What a metadata text yields; text that is not JSON gives `MetadataParse`.
pub open spec fn metadata_text_outcome(text: Seq<char>) -> Result<NodeLists, DiscoveryError> {
    match json_text_value(text) {
        None => Err(DiscoveryError::MetadataParse(arbitrary())),
        Some(doc) => metadata_outcome(doc),
    }
}

/// What discovery yields for account `name` given the answer of the account
/// lookup.
pub open spec fn discovery_outcome(name: Seq<char>, fetched: Result<AccountsResponse, ClientError>) -> Result<
    NodeLists,
    DiscoveryError,
> {
    match fetched {
        Err(e) => Err(DiscoveryError::FetchAccount(e)),
        Ok(resp) => match find_account(resp.accounts@, name) {
            None => Err(DiscoveryError::AccountNotFound),
            Some(a) => metadata_text_outcome(a.json_metadata@),
        },
    }
}

/// `r` is the outcome `expected`; a parse error is matched by its kind, as its
/// message is the parser's.
pub open spec fn yields(r: Result<NodeData, DiscoveryError>, expected: Result<NodeLists, DiscoveryError>) -> bool {
    match expected {
        Ok(p) => r matches Ok(d) && d.nodes@ == p.0 && d.failing_nodes@ == p.1,
        Err(DiscoveryError::MetadataParse(_)) => r matches Err(DiscoveryError::MetadataParse(_)),
        Err(e) => r == Err::<NodeData, DiscoveryError>(e),
    }
}

/// A metadata document without a `nodes` member yields `NoNodesInMetadata`,
/// whatever else it holds.
pub proof fn lemma_missing_nodes_fails(doc: Json)
    requires
        get(doc, NODES_KEY@) is None,
    ensures
        metadata_outcome(doc) == Err::<NodeLists, DiscoveryError>(DiscoveryError::NoNodesInMetadata),
{
}

/// A `failing_nodes` member that is not a map of strings does not fail
/// discovery: the candidates are read and no endpoint counts as failing.
pub proof fn lemma_malformed_failing_nodes_ignored(doc: Json, f: Json)
    requires
        get(doc, NODES_KEY@) matches Some(n) && string_list(n) is Some,
        get(doc, FAILING_NODES_KEY@) == Some(f),
        string_map(f) is None,
    ensures
        metadata_outcome(doc) matches Ok(p) && p.1 == Seq::<(String, String)>::empty()
            && Some(p.0) == string_list(get(doc, NODES_KEY@)->Some_0),
{
}

impl AccountParams {
    /// The parameters that look up the one account `name`.
    pub fn for_account(name: &str) -> (r: Self)
        ensures
            r.accounts@.len() == 1,
            r.accounts@[0]@ == name@,
    {
        AccountParams { accounts: vec![name.to_owned()] }
    }
}

impl AccountsResponse {
    /// The first account named `name`.
    pub fn find(&self, name: &str) -> (r: Option<&Account>)
        ensures
            r matches Some(a) ==> find_account(self.accounts@, name@) == Some(*a),
            r is None ==> find_account(self.accounts@, name@) is None,
    {
        let n = name.to_owned();
        let mut i: usize = 0;
        assert(self.accounts@.subrange(0, self.accounts@.len() as int) =~= self.accounts@);
        while i < self.accounts.len()
            invariant
                i <= self.accounts@.len(),
                n@ == name@,
                find_account(self.accounts@, name@) == find_account(
                    self.accounts@.subrange(i as int, self.accounts@.len() as int),
                    name@,
                ),
            decreases self.accounts.len() - i,
        {
            let ghost rest = self.accounts@.subrange(i as int, self.accounts@.len() as int);
            assert(rest.drop_first() =~= self.accounts@.subrange(i + 1, self.accounts@.len() as int));
            assert(rest[0] == self.accounts@[i as int]);
            if self.accounts[i].name == n {
                return Some(&self.accounts[i]);
            }
            i = i + 1;
        }
        None
    }
}

impl NodeData {
    /// Reads candidates and failing endpoints from a metadata document.
    pub fn from_document(doc: &Json) -> (r: Result<NodeData, DiscoveryError>)
        ensures
            yields(r, metadata_outcome(*doc)),
    {
        let nodes = match doc.get(NODES_KEY) {
            None => return Err(DiscoveryError::NoNodesInMetadata),
            Some(n) => match to_string_list(n) {
                None => return Err(DiscoveryError::NodesParse),
                Some(l) => l,
            },
        };
        let failing_nodes = match doc.get(FAILING_NODES_KEY) {
            Some(f) => match to_string_map(f) {
                Some(m) => m,
                None => Vec::new(),
            },
            None => Vec::new(),
        };
        proof {
            assert(failing_nodes@ =~= failing_of(*doc));
        }
        Ok(NodeData { nodes, failing_nodes })
    }

    /// Parses `json_metadata` and reads it as `from_document` does.
    pub fn from_metadata(json_metadata: &str) -> (r: Result<NodeData, DiscoveryError>)
        ensures
            yields(r, metadata_text_outcome(json_metadata@)),
    {
        match parse_json(json_metadata) {
            Err(e) => Err(DiscoveryError::MetadataParse(e)),
            Ok(doc) => NodeData::from_document(&doc),
        }
    }
}

impl Client {
    /// The method and parameters of the call that fetches account `name`.
    pub fn account_request(name: &str) -> (r: (String, AccountParams))
        ensures
            r.0@ == FIND_ACCOUNTS_METHOD@,
            r.1.accounts@.len() == 1,
            r.1.accounts@[0]@ == name@,
    {
        (FIND_ACCOUNTS_METHOD.to_owned(), AccountParams::for_account(name))
    }

    /// Reads the endpoints of account `account_name` out of the answer of the
    /// account lookup, `fetched`.
    pub fn get_nodes_from_account(account_name: &str, fetched: Result<AccountsResponse, ClientError>) -> (r:
        Result<NodeData, DiscoveryError>)
        ensures
            yields(r, discovery_outcome(account_name@, fetched)),
    {
        match fetched {
            Err(e) => Err(DiscoveryError::FetchAccount(e)),
            Ok(resp) => match resp.find(account_name) {
                None => Err(DiscoveryError::AccountNotFound),
                Some(a) => NodeData::from_metadata(a.json_metadata.as_str()),
            },
        }
    }

    /// Installs the endpoints of account `account_name`; on any failure the
    /// registry is left as it was.
    pub fn update_nodes_from_account(&mut self, account_name: &str, fetched: Result<AccountsResponse, ClientError>) -> (r:
        Result<(), DiscoveryError>)
        ensures
            match discovery_outcome(account_name@, fetched) {
                Ok(p) => r is Ok && final(self).nodes@ == kept_nodes(p.0, p.1)
                    && final(self).failing_nodes@ == p.1 && final(self).wf(),
                Err(DiscoveryError::MetadataParse(_)) => r matches Err(DiscoveryError::MetadataParse(_))
                    && *final(self) == *old(self),
                Err(e) => r == Err::<(), DiscoveryError>(e) && *final(self) == *old(self),
            },
    {
        match Client::get_nodes_from_account(account_name, fetched) {
            Err(e) => Err(e),
            Ok(data) => {
                self.set_nodes(data.nodes, data.failing_nodes);
                Ok(())
            },
        }
    }
}

} // verus!
