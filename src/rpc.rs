use vstd::prelude::*;
use crate::error::ClientError;

verus! {

/// The protocol tag that every request carries.
pub const JSONRPC_VERSION: &'static str = "2.0";

/// The id that every request carries: calls are not pipelined.
pub const REQUEST_ID: u32 = 1;

/// A JSON-RPC request.
#[derive(Debug, Clone)]
pub struct RpcRequest<P> {
    pub jsonrpc: String,
    pub method: String,
    pub params: P,
    pub id: u32,
}

/// A JSON-RPC response.
#[derive(Debug, Clone)]
pub struct RpcResponse<R> {
    pub jsonrpc: String,
    pub result: Option<R>,
    pub error: Option<RpcError>,
    pub id: u32,
}

/// The error object of a JSON-RPC response.
#[derive(Debug, Clone)]
pub struct RpcError {
    pub code: i32,
    pub message: String,
}

/// What a response means: an error wins over a result, and a response with
/// neither is malformed.
pub open spec fn response_outcome<R>(resp: RpcResponse<R>) -> Result<R, ClientError> {
    match resp.error {
        Some(e) => Err(ClientError::Rpc(e.code, e.message)),
        None => match resp.result {
            Some(v) => Ok(v),
            None => Err(ClientError::NoResult),
        },
    }
}

/// Whether an HTTP status counts as success.
pub open spec fn status_ok(status: u16) -> bool {
    200 <= status <= 299
}

impl<P> RpcRequest<P> {
    /// The request envelope for one call of `method`.
    pub fn new(method: &str, params: P) -> (r: Self)
        ensures
            r.jsonrpc@ == JSONRPC_VERSION@,
            r.method@ == method@,
            r.params == params,
            r.id == REQUEST_ID,
    {
        RpcRequest {
            jsonrpc: JSONRPC_VERSION.to_string(),
            method: method.to_string(),
            params,
            id: REQUEST_ID,
        }
    }
}

impl<R> RpcResponse<R> {
    /// The result of the call, or the failure that the response reports.
    pub fn into_outcome(self) -> (r: Result<R, ClientError>)
        ensures
            r == response_outcome(self),
    {
        match self.error {
            Some(e) => Err(ClientError::Rpc(e.code, e.message)),
            None => match self.result {
                Some(v) => Ok(v),
                None => Err(ClientError::NoResult),
            },
        }
    }
}

/// `Ok` for a success status, else the status as an error.
pub fn check_status(status: u16) -> (r: Result<(), ClientError>)
    ensures
        status_ok(status) ==> r == Ok::<(), ClientError>(()),
        !status_ok(status) ==> r == Err::<(), ClientError>(ClientError::Status(status)),
{
    if 200 <= status && status <= 299 {
        Ok(())
    } else {
        Err(ClientError::Status(status))
    }
}

} // verus!
