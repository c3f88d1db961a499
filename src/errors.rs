//! The error taxonomy shared by every protocol, and its translation into
//! HTTP statuses, gRPC status codes and `{code, message}` error objects.

use vstd::prelude::*;

verus! {

/// Stable error codes: 1xxx general, 2xxx grid items, 3xxx JSON-RPC wire errors.
#[derive(Debug, Clone, Copy, PartialEq, Eq, Structural)]
pub enum ErrorCode {
    InternalError,
    ValidationError,
    NotFound,
    Unauthorized,
    Forbidden,
    GridItemNotFound,
    GridItemCreationFailed,
    GridItemUpdateFailed,
    JsonRpcParseError,
    JsonRpcMethodNotFound,
    JsonRpcInvalidParams,
}

/// The numeric value of each error code.
pub open spec fn code_value(c: ErrorCode) -> i32 {
    match c {
        ErrorCode::InternalError => 1000,
        ErrorCode::ValidationError => 1001,
        ErrorCode::NotFound => 1002,
        ErrorCode::Unauthorized => 1003,
        ErrorCode::Forbidden => 1004,
        ErrorCode::GridItemNotFound => 2001,
        ErrorCode::GridItemCreationFailed => 2002,
        ErrorCode::GridItemUpdateFailed => 2003,
        ErrorCode::JsonRpcParseError => 3001,
        ErrorCode::JsonRpcMethodNotFound => 3002,
        ErrorCode::JsonRpcInvalidParams => 3003,
    }
}

/// The human-readable text of each error code.
pub open spec fn code_message(c: ErrorCode) -> Seq<char> {
    match c {
        ErrorCode::InternalError => "Internal server error"@,
        ErrorCode::ValidationError => "Validation error"@,
        ErrorCode::NotFound => "Resource not found"@,
        ErrorCode::Unauthorized => "Unauthorized"@,
        ErrorCode::Forbidden => "Forbidden"@,
        ErrorCode::GridItemNotFound => "Grid item not found"@,
        ErrorCode::GridItemCreationFailed => "Grid item creation failed"@,
        ErrorCode::GridItemUpdateFailed => "Grid item update failed"@,
        ErrorCode::JsonRpcParseError => "JSON-RPC parse error"@,
        ErrorCode::JsonRpcMethodNotFound => "JSON-RPC method not found"@,
        ErrorCode::JsonRpcInvalidParams => "JSON-RPC invalid params"@,
    }
}

impl ErrorCode {
    pub fn code(&self) -> (r: i32)
        ensures
            r == code_value(*self),
    {
        match self {
            ErrorCode::InternalError => 1000,
            ErrorCode::ValidationError => 1001,
            ErrorCode::NotFound => 1002,
            ErrorCode::Unauthorized => 1003,
            ErrorCode::Forbidden => 1004,
            ErrorCode::GridItemNotFound => 2001,
            ErrorCode::GridItemCreationFailed => 2002,
            ErrorCode::GridItemUpdateFailed => 2003,
            ErrorCode::JsonRpcParseError => 3001,
            ErrorCode::JsonRpcMethodNotFound => 3002,
            ErrorCode::JsonRpcInvalidParams => 3003,
        }
    }

    pub fn message(&self) -> (r: &'static str)
        ensures
            r@ == code_message(*self),
    {
        match self {
            ErrorCode::InternalError => "Internal server error",
            ErrorCode::ValidationError => "Validation error",
            ErrorCode::NotFound => "Resource not found",
            ErrorCode::Unauthorized => "Unauthorized",
            ErrorCode::Forbidden => "Forbidden",
            ErrorCode::GridItemNotFound => "Grid item not found",
            ErrorCode::GridItemCreationFailed => "Grid item creation failed",
            ErrorCode::GridItemUpdateFailed => "Grid item update failed",
            ErrorCode::JsonRpcParseError => "JSON-RPC parse error",
            ErrorCode::JsonRpcMethodNotFound => "JSON-RPC method not found",
            ErrorCode::JsonRpcInvalidParams => "JSON-RPC invalid params",
        }
    }
}

/// The application's error kinds, one for each error code.
#[derive(Debug, Clone, Copy, PartialEq, Eq, Structural)]
pub enum AppError {
    InternalError,
    ValidationError,
    NotFound,
    Unauthorized,
    Forbidden,
    GridItemNotFound,
    GridItemCreationFailed,
    GridItemUpdateFailed,
    JsonRpcParseError,
    JsonRpcMethodNotFound,
    JsonRpcInvalidParams,
}

/// The error code of each error kind: the variant of the same name.
pub open spec fn code_of(e: AppError) -> ErrorCode {
    match e {
        AppError::InternalError => ErrorCode::InternalError,
        AppError::ValidationError => ErrorCode::ValidationError,
        AppError::NotFound => ErrorCode::NotFound,
        AppError::Unauthorized => ErrorCode::Unauthorized,
        AppError::Forbidden => ErrorCode::Forbidden,
        AppError::GridItemNotFound => ErrorCode::GridItemNotFound,
        AppError::GridItemCreationFailed => ErrorCode::GridItemCreationFailed,
        AppError::GridItemUpdateFailed => ErrorCode::GridItemUpdateFailed,
        AppError::JsonRpcParseError => ErrorCode::JsonRpcParseError,
        AppError::JsonRpcMethodNotFound => ErrorCode::JsonRpcMethodNotFound,
        AppError::JsonRpcInvalidParams => ErrorCode::JsonRpcInvalidParams,
    }
}

/// The HTTP status that the REST adapter answers each error kind with.
pub open spec fn http_status_of(e: AppError) -> u16 {
    match e {
        AppError::InternalError => 500,
        AppError::ValidationError => 400,
        AppError::NotFound => 404,
        AppError::Unauthorized => 401,
        AppError::Forbidden => 403,
        AppError::GridItemNotFound => 404,
        AppError::GridItemCreationFailed => 500,
        AppError::GridItemUpdateFailed => 500,
        AppError::JsonRpcParseError => 400,
        AppError::JsonRpcMethodNotFound => 404,
        AppError::JsonRpcInvalidParams => 400,
    }
}

/// The gRPC status code (as numbered by the gRPC protocol) of each error kind.
pub open spec fn grpc_code_of(e: AppError) -> i32 {
    match e {
        AppError::InternalError => 13,
        AppError::ValidationError => 3,
        AppError::NotFound => 5,
        AppError::Unauthorized => 16,
        AppError::Forbidden => 7,
        AppError::GridItemNotFound => 5,
        AppError::GridItemCreationFailed => 13,
        AppError::GridItemUpdateFailed => 13,
        AppError::JsonRpcParseError => 3,
        AppError::JsonRpcMethodNotFound => 12,
        AppError::JsonRpcInvalidParams => 3,
    }
}

/// The `{code, message}` pair that every protocol reports for an error.
#[derive(Debug)]
pub struct ErrorInfo {
    pub code: i32,
    pub message: String,
}

/// The body of a failed REST response.
#[derive(Debug)]
pub struct ErrorResponse {
    pub success: bool,
    pub error: ErrorInfo,
}

impl AppError {
    pub fn error_code(&self) -> (r: ErrorCode)
        ensures
            r == code_of(*self),
    {
        match self {
            AppError::InternalError => ErrorCode::InternalError,
            AppError::ValidationError => ErrorCode::ValidationError,
            AppError::NotFound => ErrorCode::NotFound,
            AppError::Unauthorized => ErrorCode::Unauthorized,
            AppError::Forbidden => ErrorCode::Forbidden,
            AppError::GridItemNotFound => ErrorCode::GridItemNotFound,
            AppError::GridItemCreationFailed => ErrorCode::GridItemCreationFailed,
            AppError::GridItemUpdateFailed => ErrorCode::GridItemUpdateFailed,
            AppError::JsonRpcParseError => ErrorCode::JsonRpcParseError,
            AppError::JsonRpcMethodNotFound => ErrorCode::JsonRpcMethodNotFound,
            AppError::JsonRpcInvalidParams => ErrorCode::JsonRpcInvalidParams,
        }
    }

    /// The HTTP status of this error.
    pub fn http_status(&self) -> (r: u16)
        ensures
            r == http_status_of(*self),
    {
        match self {
            AppError::InternalError => 500,
            AppError::ValidationError => 400,
            AppError::NotFound => 404,
            AppError::Unauthorized => 401,
            AppError::Forbidden => 403,
            AppError::GridItemNotFound => 404,
            AppError::GridItemCreationFailed => 500,
            AppError::GridItemUpdateFailed => 500,
            AppError::JsonRpcParseError => 400,
            AppError::JsonRpcMethodNotFound => 404,
            AppError::JsonRpcInvalidParams => 400,
        }
    }

    /// The gRPC status code of this error.
    pub fn grpc_code(&self) -> (r: i32)
        ensures
            r == grpc_code_of(*self),
    {
        match self {
            AppError::InternalError => 13,
            AppError::ValidationError => 3,
            AppError::NotFound => 5,
            AppError::Unauthorized => 16,
            AppError::Forbidden => 7,
            AppError::GridItemNotFound => 5,
            AppError::GridItemCreationFailed => 13,
            AppError::GridItemUpdateFailed => 13,
            AppError::JsonRpcParseError => 3,
            AppError::JsonRpcMethodNotFound => 12,
            AppError::JsonRpcInvalidParams => 3,
        }
    }

    /// The `{code, message}` pair of this error, the same for every protocol.
    pub fn error_info(&self) -> (r: ErrorInfo)
        ensures
            r.code == code_value(code_of(*self)),
            r.message@ == code_message(code_of(*self)),
    {
        let c = self.error_code();
        ErrorInfo { code: c.code(), message: String::from_str(c.message()) }
    }

    /// The REST body of this error: `{success: false, error: {code, message}}`.
    pub fn error_response(&self) -> (r: ErrorResponse)
        ensures
            !r.success,
            r.error.code == code_value(code_of(*self)),
            r.error.message@ == code_message(code_of(*self)),
    {
        ErrorResponse { success: false, error: self.error_info() }
    }
}

} // verus!
