//! Conversion of the node's RPC errors and results into JSON-RPC ones.
use vstd::prelude::*;
use vstd::string::StringExecFns;

verus! {

#[verifier::external_type_specification]
#[verifier::external_body]
pub struct ExJsonRpcError(jsonrpc_core::Error);

/// The JSON-RPC server-error code for a failure while processing a request.
pub const EXCEPTION_ERROR: i64 = -32016;

/// An error of an RPC method. Each variant but the first carries the text
/// that the error displays.
pub enum RpcError {
    /// Already a JSON-RPC error; handed on as it is.
    JsonRpc(jsonrpc_core::Error),
    /// A parameter and the details of what is wrong with it.
    InvalidParam(String, String),
    Msg(String),
    Decoder(String),
    FilterError(String),
    StateDb(String),
    Storage(String),
}

/// The result of an RPC method.
pub type RpcResult<T> = Result<T, RpcError>;

/// The JSON-RPC code for invalid method parameters.
pub const INVALID_PARAMS: i64 = -32602;

/// The fields of a JSON-RPC error, `data` standing for a JSON string.
pub struct ErrorParts {
    pub code: i64,
    pub message: String,
    pub data: Option<String>,
}

/// The text that std's `Debug` gives for a string: quoted, with escapes.
pub uninterp spec fn debug_text(s: Seq<char>) -> Seq<char>;

/// Relies on `<str as Debug>::fmt`, through `format!`: the text depends on the
/// characters alone.
#[verifier::external_body]
fn debug_string(s: &String) -> (r: String)
    ensures
        r@ == debug_text(s@),
{
    format!("{:?}", s)
}

/// Relies on `jsonrpc_core::ErrorCode::from(i64)`, with jsonrpc_core::Error's
/// public fields and its `Value::String`: builds the error from its three
/// fields, one for one.
#[verifier::external_body]
fn to_jsonrpc_error(parts: ErrorParts) -> (r: jsonrpc_core::Error) {
    jsonrpc_core::Error {
        code: jsonrpc_core::ErrorCode::from(parts.code),
        message: parts.message,
        data: parts.data.map(jsonrpc_core::Value::String),
    }
}

/// The text that the error displays, for every variant that carries one.
pub open spec fn display_text(e: &RpcError) -> Seq<char> {
    match e {
        RpcError::JsonRpc(_) => Seq::empty(),
        RpcError::InvalidParam(p, _) => p@,
        RpcError::Msg(s) => s@,
        RpcError::Decoder(s) => s@,
        RpcError::FilterError(s) => s@,
        RpcError::StateDb(s) => s@,
        RpcError::Storage(s) => s@,
    }
}

/// Whether `parts` are the JSON-RPC fields for an error of the node's own.
pub open spec fn parts_of(e: &RpcError, parts: ErrorParts) -> bool {
    match e {
        RpcError::JsonRpc(_) => false,
        RpcError::InvalidParam(p, d) => {
            &&& parts.code == INVALID_PARAMS
            &&& parts.message@ == "Invalid parameters: "@ + p@
            &&& parts.data is Some
            &&& parts.data->Some_0@ == debug_text(d@)
        },
        _ => {
            &&& parts.code == EXCEPTION_ERROR
            &&& parts.message@ == "Error processing request: "@ + display_text(e)
            &&& parts.data is None
        },
    }
}

fn own_error_parts(e: &RpcError) -> (r: ErrorParts)
    requires
        !(e is JsonRpc),
    ensures
        parts_of(e, r),
{
    match e {
        RpcError::InvalidParam(p, d) => ErrorParts {
            code: INVALID_PARAMS,
            message: String::from_str("Invalid parameters: ").concat(p.as_str()),
            data: Some(debug_string(d)),
        },
        RpcError::Msg(s) | RpcError::Decoder(s) | RpcError::FilterError(s) | RpcError::StateDb(s)
        | RpcError::Storage(s) => ErrorParts {
            code: EXCEPTION_ERROR,
            message: String::from_str("Error processing request: ").concat(s.as_str()),
            data: None,
        },
        RpcError::JsonRpc(_) => {
            proof {
                assert(false);
            }
            ErrorParts { code: INVALID_PARAMS, message: String::new(), data: None }
        },
    }
}

/// The JSON-RPC fields for an error of the node's own: an invalid parameter
/// becomes an invalid-params error naming it, with its details as data; any
/// other error a server error with the exception code and its text. A
/// JSON-RPC error has none: it is handed on as it is.
pub fn error_parts(e: &RpcError) -> (r: Option<ErrorParts>)
    ensures
        e is JsonRpc <==> r is None,
        r is Some ==> parts_of(e, r->Some_0),
{
    match e {
        RpcError::JsonRpc(_) => None,
        _ => Some(own_error_parts(e)),
    }
}

/// A conversion between the RPC layer's result and error types.
pub trait Into<T>: Sized {
    fn into(x: Self) -> T;
}

/// Turns an error of an RPC method into a JSON-RPC error: one that already is
/// one is handed on unchanged, any other is built from its `error_parts`.
pub fn rpc_error_into_jsonrpc(e: RpcError) -> (r: jsonrpc_core::Error)
    ensures
        e matches RpcError::JsonRpc(j) ==> r == j,
{
    match e {
        RpcError::JsonRpc(j) => j,
        other => to_jsonrpc_error(own_error_parts(&other)),
    }
}

impl Into<jsonrpc_core::Error> for RpcError {
    fn into(e: Self) -> jsonrpc_core::Error {
        rpc_error_into_jsonrpc(e)
    }
}

impl<T> Into<Result<T, jsonrpc_core::Error>> for Result<T, jsonrpc_core::Error> {
    fn into(x: Self) -> Result<T, jsonrpc_core::Error> {
        x
    }
}

/// Turns the result of an RPC method into a JSON-RPC result: a value is kept,
/// an error converted by `rpc_error_into_jsonrpc`.
pub fn into_jsonrpc_result<T>(r: RpcResult<T>) -> (out: Result<T, jsonrpc_core::Error>)
    ensures
        r is Ok <==> out is Ok,
        r matches Ok(t) ==> out == Ok::<T, jsonrpc_core::Error>(t),
        r matches Err(RpcError::JsonRpc(j)) ==> out == Err::<T, jsonrpc_core::Error>(j),
{
    match r {
        Ok(t) => Ok(t),
        Err(e) => Err(rpc_error_into_jsonrpc(e)),
    }
}

impl<T> Into<Result<T, jsonrpc_core::Error>> for RpcResult<T> {
    fn into(x: Self) -> Result<T, jsonrpc_core::Error> {
        into_jsonrpc_result(x)
    }
}

} // verus!
