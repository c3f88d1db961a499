//! The JSON-RPC adapter's decisions: which envelopes are valid requests, the
//! error objects that the protocol answers with, and the three user methods.
//! Decoding JSON into the plain values below, and dispatching by method name,
//! are left to the JSON-RPC server.

use vstd::prelude::*;
use crate::text::{push_decimal, decimal, same_text};

verus! {

/// The JSON-RPC 2.0 error codes.
pub const PARSE_ERROR: i32 = -32700;
pub const INVALID_REQUEST: i32 = -32600;
pub const METHOD_NOT_FOUND: i32 = -32601;
pub const INVALID_PARAMS: i32 = -32602;
pub const INTERNAL_ERROR: i32 = -32603;

/// A JSON-RPC error object (its `data` member is always absent).
#[derive(Debug)]
pub struct JsonRpcError {
    pub code: i32,
    pub message: String,
}

/// What a member of the request object holds, as far as validation cares.
#[derive(Debug)]
pub enum JsonField {
    Missing,
    Null,
    Text(String),
    /// A number, boolean, array or object.
    Other,
}

/// The shape of a request payload: whether it is a JSON object, and its
/// `jsonrpc` and `method` members.
#[derive(Debug)]
pub struct RpcEnvelope {
    pub is_object: bool,
    pub jsonrpc: JsonField,
    pub method: JsonField,
}

/// Why a payload is not a valid request, in order of precedence.
#[derive(Debug, Clone, Copy, PartialEq, Eq, Structural)]
pub enum EnvelopeFault {
    NotAnObject,
    MissingFields,
    EmptyMethod,
    WrongVersion,
}

/// The members decode into `{jsonrpc: Option<String>, method: String}`:
/// `method` is a string, and `jsonrpc` is a string, null or absent.
pub open spec fn decodes(env: RpcEnvelope) -> bool {
    env.method is Text && !(env.jsonrpc is Other)
}

/// The first fault of a payload, if any.
pub open spec fn envelope_fault(env: RpcEnvelope) -> Option<EnvelopeFault> {
    if !env.is_object {
        Some(EnvelopeFault::NotAnObject)
    } else if !decodes(env) {
        Some(EnvelopeFault::MissingFields)
    } else if env.method->Text_0@.len() == 0 {
        Some(EnvelopeFault::EmptyMethod)
    } else if env.jsonrpc matches JsonField::Text(v) && v@ != "2.0"@ {
        Some(EnvelopeFault::WrongVersion)
    } else {
        None
    }
}

/// The message of each fault.
pub open spec fn fault_message(f: EnvelopeFault) -> Seq<char> {
    match f {
        EnvelopeFault::NotAnObject => "Invalid Request: payload must be an object"@,
        EnvelopeFault::MissingFields => "Invalid Request: missing required fields"@,
        EnvelopeFault::EmptyMethod => "Invalid Request: method is required"@,
        EnvelopeFault::WrongVersion => "Invalid Request: jsonrpc version must be 2.0"@,
    }
}

fn invalid_request(message: &str) -> (r: JsonRpcError)
    ensures
        r.code == INVALID_REQUEST,
        r.message@ == message@,
{
    JsonRpcError { code: INVALID_REQUEST, message: String::from_str(message) }
}

/// Checks a payload before dispatch: `Ok` exactly when it has no fault;
/// otherwise an invalid-request error with the first fault's message.
pub fn validate_request(env: &RpcEnvelope) -> (r: Result<(), JsonRpcError>)
    ensures
        r is Ok <==> envelope_fault(*env) is None,
        r matches Err(e) ==> e.code == INVALID_REQUEST && e.message@ == fault_message(
            envelope_fault(*env)->0,
        ),
{
    if !env.is_object {
        return Err(invalid_request("Invalid Request: payload must be an object"));
    }
    let method = match &env.method {
        JsonField::Text(m) => m,
        _ => {
            return Err(invalid_request("Invalid Request: missing required fields"));
        },
    };
    if let JsonField::Other = env.jsonrpc {
        return Err(invalid_request("Invalid Request: missing required fields"));
    }
    if method.as_str().unicode_len() == 0 {
        return Err(invalid_request("Invalid Request: method is required"));
    }
    if let JsonField::Text(v) = &env.jsonrpc {
        if !same_text(v.as_str(), "2.0") {
            return Err(invalid_request("Invalid Request: jsonrpc version must be 2.0"));
        }
    }
    Ok(())
}

/// The error for a request that the dispatcher produced no answer for.
pub fn unprocessable_request() -> (r: JsonRpcError)
    ensures
        r.code == INVALID_REQUEST,
        r.message@ == "Invalid Request: could not process request"@,
{
    invalid_request("Invalid Request: could not process request")
}

/// The error for a dispatcher answer that is not valid JSON.
pub fn unreadable_response() -> (r: JsonRpcError)
    ensures
        r.code == INTERNAL_ERROR,
        r.message@ == "Internal Error: failed to parse response"@,
{
    JsonRpcError {
        code: INTERNAL_ERROR,
        message: String::from_str("Internal Error: failed to parse response"),
    }
}

/// The answer of `get_user_info`.
#[derive(Debug)]
pub struct UserInfo {
    pub name: String,
    pub age: u32,
    pub email: String,
    pub status: String,
}

/// The answer of `update_user_info`.
#[derive(Debug)]
pub struct UpdateOutcome {
    pub success: bool,
    pub message: String,
}

/// The answer of `verify_credentials`.
#[derive(Debug)]
pub struct CredentialCheck {
    pub authenticated: bool,
    pub token: String,
}

/// `get_user_info`: a fixed profile, whatever the parameters.
pub fn get_user_info() -> (r: UserInfo)
    ensures
        r.name@ == "John Doe"@,
        r.age == 30,
        r.email@ == "john@example.com"@,
        r.status@ == "active"@,
{
    UserInfo {
        name: String::from_str("John Doe"),
        age: 30,
        email: String::from_str("john@example.com"),
        status: String::from_str("active"),
    }
}

/// `update_user_info` with the `name` and `age` parameters (empty and 0
/// when absent): always successful, echoing both.
pub fn update_user_info(name: &str, age: u64) -> (r: UpdateOutcome)
    ensures
        r.success,
        r.message@ == "User information updated: "@ + name@ + " ("@ + decimal(age as nat)
            + " years old)"@,
{
    let mut message = String::from_str("User information updated: ");
    message.append(name);
    message.append(" (");
    push_decimal(&mut message, age);
    message.append(" years old)");
    UpdateOutcome { success: true, message }
}

/// `verify_credentials`: authenticated exactly for `admin` / `123456`; the
/// token is the same placeholder either way.
pub fn verify_credentials(username: &str, password: &str) -> (r: CredentialCheck)
    ensures
        r.authenticated == (username@ == "admin"@ && password@ == "123456"@),
        r.token@ == "sample-jwt-token"@,
{
    let authenticated = same_text(username, "admin") && same_text(password, "123456");
    CredentialCheck { authenticated, token: String::from_str("sample-jwt-token") }
}

} // verus!
