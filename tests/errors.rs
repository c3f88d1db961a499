use omnigate::errors::{AppError, ErrorCode};

const ALL: [AppError; 11] = [
    AppError::InternalError,
    AppError::ValidationError,
    AppError::NotFound,
    AppError::Unauthorized,
    AppError::Forbidden,
    AppError::GridItemNotFound,
    AppError::GridItemCreationFailed,
    AppError::GridItemUpdateFailed,
    AppError::JsonRpcParseError,
    AppError::JsonRpcMethodNotFound,
    AppError::JsonRpcInvalidParams,
];

#[test]
fn error_codes_are_stable() {
    let codes: Vec<i32> = ALL.iter().map(|e| e.error_code().code()).collect();
    assert_eq!(codes, vec![1000, 1001, 1002, 1003, 1004, 2001, 2002, 2003, 3001, 3002, 3003]);
}

#[test]
fn error_messages() {
    assert_eq!(ErrorCode::InternalError.message(), "Internal server error");
    assert_eq!(ErrorCode::NotFound.message(), "Resource not found");
    assert_eq!(ErrorCode::GridItemCreationFailed.message(), "Grid item creation failed");
    assert_eq!(ErrorCode::JsonRpcInvalidParams.message(), "JSON-RPC invalid params");
    assert_eq!(AppError::Forbidden.error_code(), ErrorCode::Forbidden);
}

#[test]
fn http_statuses() {
    let statuses: Vec<u16> = ALL.iter().map(|e| e.http_status()).collect();
    assert_eq!(statuses, vec![500, 400, 404, 401, 403, 404, 500, 500, 400, 404, 400]);
}

#[test]
fn grpc_codes() {
    let codes: Vec<i32> = ALL.iter().map(|e| e.grpc_code()).collect();
    assert_eq!(codes, vec![13, 3, 5, 16, 7, 5, 13, 13, 3, 12, 3]);
}

#[test]
fn error_response_carries_code_and_message() {
    let r = AppError::GridItemNotFound.error_response();
    assert!(!r.success);
    assert_eq!(r.error.code, 2001);
    assert_eq!(r.error.message, "Grid item not found");
    let info = AppError::Unauthorized.error_info();
    assert_eq!(info.code, 1003);
    assert_eq!(info.message, "Unauthorized");
}
