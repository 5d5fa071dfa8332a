use clipman_platform::AppError;
use clipman_platform::Config;

#[test]
fn test_default_config() {
    let config = Config::default();
    assert_eq!(config.user.min_password_length, 8);
    assert_eq!(config.user.max_username_length, 32);
    assert_eq!(config.clipboard.max_size, 1024 * 1024);
}

#[test]
fn default_config_covers_every_component() {
    let config = Config::default();
    assert_eq!(config.clipboard.retention_period, 24 * 60 * 60);
    assert_eq!(config.clipboard.broadcast_capacity, 100);
    assert_eq!(config.websocket.channel_capacity, 100);
    assert_eq!(config.auth.jwt_secret, "your-secret-key");
    assert_eq!(config.auth.access_token_expiry, 3600);
    assert_eq!(config.auth.refresh_token_expiry, 604800);
    assert_eq!(config.server.host, "127.0.0.1");
    assert_eq!(config.server.port, 3000);
    assert_eq!(config.user.password_rounds, 3);
    assert_eq!(config.user.memory_size, 65536);
    assert_eq!(config.app.history_size, 10);
    assert_eq!(config.app.broadcast_capacity, 100);
}

#[test]
fn error_status_codes_follow_the_taxonomy() {
    assert_eq!(AppError::InvalidToken.status_code(), 401);
    assert_eq!(AppError::TokenExpired.status_code(), 401);
    assert_eq!(AppError::InvalidCredentials.status_code(), 401);
    assert_eq!(AppError::UserNotFound(7).status_code(), 404);
    assert_eq!(AppError::DeviceNotFound(7).status_code(), 404);
    assert_eq!(AppError::ClipboardNotFound(7).status_code(), 404);
    assert_eq!(AppError::UserAlreadyExists("a".to_string()).status_code(), 409);
    assert_eq!(AppError::DeviceUnauthorized(7).status_code(), 403);
    assert_eq!(AppError::TooManyDevices.status_code(), 429);
    assert_eq!(AppError::ValidationError("v".to_string()).status_code(), 400);
    assert_eq!(AppError::InternalError("i".to_string()).status_code(), 500);
    assert_eq!(AppError::BroadcastError("b".to_string()).status_code(), 500);
    assert_eq!(AppError::LockError("l".to_string()).status_code(), 500);
    assert_eq!(AppError::WebSocketConnectionError("w".to_string()).status_code(), 502);
}

#[test]
fn error_response_carries_code_and_message() {
    let resp = AppError::TokenExpired.error_response();
    assert_eq!(resp.code, 401);
    assert_eq!(resp.message, "Token expired");
    assert!(resp.details.is_none());
    let resp = AppError::ClipboardNotFound(1).error_response();
    assert_eq!(resp.code, 404);
    assert_eq!(resp.message, "Clipboard not found");
}
