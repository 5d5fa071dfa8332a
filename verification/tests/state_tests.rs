use clipman_platform::AppError;
use clipman_platform::AppState;
use clipman_platform::Config;

#[test]
fn test_app_state_initialization() {
    let mut config = Config::default();
    config.auth.jwt_secret = "testsecret".to_string();

    let mut state = AppState::new(config);

    assert_eq!(state.config.auth.jwt_secret, "testsecret");
    assert_eq!(state.user_service.user_count(), 0);
    let (access, _) = state.auth_service.create_token_pair(1).unwrap();
    assert!(state.auth_service.verify_token(&access).is_ok());
    assert!(matches!(
        state.device_service.get_device(1),
        Err(AppError::DeviceNotFound(1))
    ));
    let _rx = state.ws_service.subscribe();
    let registered = state
        .user_service
        .register_user("firstuser".to_string(), "password!".to_string())
        .unwrap();
    assert_eq!(registered.username, "firstuser");
}

#[test]
fn websocket_broadcast_reaches_subscribers_and_reports_an_empty_channel() {
    let state = AppState::new(Config::default());
    let entry = clipman_platform::ClipboardData::new("shared".to_string(), 1, 2);

    let no_listeners = state.ws_service.broadcast(entry.clone());
    assert!(matches!(
        no_listeners,
        Err(AppError::BroadcastError(msg)) if msg == "channel closed"
    ));

    let mut rx = state.ws_service.subscribe();
    state.ws_service.broadcast(entry.clone()).unwrap();
    let received = rx.try_recv().unwrap();
    assert_eq!(received.id, entry.id);
    assert_eq!(received.content, "shared");
}

#[test]
fn device_service_hands_out_fresh_records() {
    let state = AppState::new(Config::default());
    let device = state.device_service.register_device(5, "laptop".to_string()).unwrap();
    assert_eq!(device.user_id, 5);
    assert_eq!(device.name, "laptop");
    assert_eq!(device.created_at, device.last_seen);

    assert!(state.device_service.get_user_devices(5).unwrap().is_empty());
    assert!(matches!(
        state.device_service.update_device_status(8),
        Err(AppError::DeviceNotFound(8))
    ));
    assert!(matches!(
        state.device_service.verify_device(8, 5),
        Err(AppError::DeviceNotFound(8))
    ));
    assert!(matches!(
        state.device_service.remove_device(8, 5),
        Err(AppError::DeviceNotFound(8))
    ));
}
