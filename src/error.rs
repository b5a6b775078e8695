use vstd::prelude::*;

verus! {

/// What went wrong while talking to a node or while discovering nodes.
#[derive(Debug, Clone, PartialEq, Eq)]
pub enum ClientError {
    /// The registry holds no endpoint to try.
    NoNodesAvailable,
    /// The HTTP request could not be sent or no answer came back.
    Request(String),
    /// The node answered with a status outside 200..=299.
    Status(u16),
    /// The answer was not a JSON-RPC response.
    Decode(String),
    /// The node reported an error of its own.
    Rpc(i32, String),
    /// The result did not have the shape that the caller asked for.
    ResultDecode(String),
    /// The response carried neither a result nor an error.
    NoResult,
}

/// What went wrong while discovering endpoints from an account.
#[derive(Debug, Clone, PartialEq, Eq)]
pub enum DiscoveryError {
    /// The call that fetches the account failed.
    FetchAccount(ClientError),
    /// No account of that name came back.
    AccountNotFound,
    /// The account's `json_metadata` is not JSON.
    MetadataParse(String),
    /// The metadata has no `nodes` member.
    NoNodesInMetadata,
    /// The `nodes` member is not a list of strings.
    NodesParse,
}

} // verus!
