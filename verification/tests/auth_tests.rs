use clipman_platform::AppError;
use clipman_platform::AuthService;
use clipman_platform::Config;
use clipman_platform::TokenType;

fn fresh_id() -> u128 {
    uuid::Uuid::new_v4().as_u128()
}

fn mock_config() -> Config {
    let mut config = Config::default();
    config.auth.jwt_secret = "test_secret".to_string();
    config.auth.access_token_expiry = 3600;
    config.auth.refresh_token_expiry = 604800;
    config
}

#[test]
fn test_create_token_pair() {
    let auth_service = AuthService::new(&mock_config());

    let user_id = fresh_id();
    let (access_token, refresh_token) = auth_service.create_token_pair(user_id).unwrap();

    assert!(!access_token.is_empty());
    assert!(!refresh_token.is_empty());
}

#[test]
fn test_verify_token() {
    let auth_service = AuthService::new(&mock_config());

    let user_id = fresh_id();
    let (access_token, _) = auth_service.create_token_pair(user_id).unwrap();

    let claims = auth_service.verify_token(&access_token).unwrap();
    assert_eq!(claims.sub, user_id);
    assert_eq!(claims.token_type, TokenType::Access);
}

#[test]
fn test_refresh_token() {
    let auth_service = AuthService::new(&mock_config());

    let user_id = fresh_id();
    let (_, refresh_token) = auth_service.create_token_pair(user_id).unwrap();

    let new_access_token = auth_service.refresh_token(&refresh_token).unwrap();
    assert!(!new_access_token.is_empty());
}

#[test]
fn test_invalidate_token() {
    let mut auth_service = AuthService::new(&mock_config());

    let user_id = fresh_id();
    let (access_token, _) = auth_service.create_token_pair(user_id).unwrap();

    auth_service.invalidate_token(&access_token).unwrap();
    let result = auth_service.verify_token(&access_token);

    assert!(result.is_err());
}

#[test]
fn test_logout() {
    let mut auth_service = AuthService::new(&mock_config());

    let user_id = fresh_id();
    let (access_token, refresh_token) = auth_service.create_token_pair(user_id).unwrap();

    auth_service.logout(&access_token, &refresh_token).unwrap();

    let access_result = auth_service.verify_token(&access_token);
    let refresh_result = auth_service.verify_token(&refresh_token);

    assert!(access_result.is_err());
    assert!(refresh_result.is_err());
}

#[test]
fn token_verifies_until_expiry_and_fails_after_revocation() {
    let mut auth_service = AuthService::new(&mock_config());
    let user_id = 77;
    let now = 1_000_000;
    let (access_token, _) = auth_service.create_token_pair_at(user_id, now).unwrap();

    let claims = auth_service.verify_token_at(&access_token, now).unwrap();
    assert_eq!(claims.sub, user_id);
    assert_eq!(claims.exp, now + 3600);

    let just_before = auth_service.verify_token_at(&access_token, now + 3599).unwrap();
    assert_eq!(just_before.sub, user_id);

    auth_service.invalidate_token(&access_token).unwrap();
    let revoked = auth_service.verify_token_at(&access_token, now);
    assert!(matches!(revoked, Err(AppError::InvalidToken)));
}

#[test]
fn expired_token_fails_with_token_expired() {
    let auth_service = AuthService::new(&mock_config());
    let now = 1_000_000;
    let (access_token, _) = auth_service.create_token_pair_at(5, now).unwrap();

    let at_expiry = auth_service.verify_token_at(&access_token, now + 3600);
    assert!(matches!(at_expiry, Err(AppError::TokenExpired)));

    let past_expiry = auth_service.verify_token_at(&access_token, now + 7200);
    assert!(matches!(past_expiry, Err(AppError::TokenExpired)));
}

#[test]
fn refresh_rejects_an_access_token() {
    let auth_service = AuthService::new(&mock_config());
    let now = 1_000_000;
    let (access_token, refresh_token) = auth_service.create_token_pair_at(9, now).unwrap();

    let wrong_kind = auth_service.refresh_token_at(&access_token, now);
    assert!(matches!(wrong_kind, Err(AppError::InvalidToken)));

    let fresh_access = auth_service.refresh_token_at(&refresh_token, now).unwrap();
    let claims = auth_service.verify_token_at(&fresh_access, now).unwrap();
    assert_eq!(claims.sub, 9);
    assert_eq!(claims.token_type, TokenType::Access);
}

#[test]
fn garbage_and_wrong_secret_tokens_are_invalid() {
    let auth_service = AuthService::new(&mock_config());
    assert!(matches!(
        auth_service.verify_token_at("not a token", 0),
        Err(AppError::InvalidToken)
    ));

    let mut other = Config::default();
    other.auth.jwt_secret = "another_secret".to_string();
    let other_service = AuthService::new(&other);
    let (token, _) = other_service.create_token_pair_at(1, 1000).unwrap();
    assert!(matches!(
        auth_service.verify_token_at(&token, 1000),
        Err(AppError::InvalidToken)
    ));
}

#[test]
fn refresh_token_kind_and_lifetime_are_baked_in() {
    let auth_service = AuthService::new(&mock_config());
    let now = 2_000_000;
    let (_, refresh_token) = auth_service.create_token_pair_at(3, now).unwrap();

    let claims = auth_service.verify_token_at(&refresh_token, now).unwrap();
    assert_eq!(claims.token_type, TokenType::Refresh);
    assert_eq!(claims.exp, now + 604800);
}
