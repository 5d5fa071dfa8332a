use clipman_platform::AppError;
use clipman_platform::ClipboardData;
use clipman_platform::ClipboardService;
use clipman_platform::Config;

fn fresh_id() -> u128 {
    uuid::Uuid::new_v4().as_u128()
}

fn create_test_config() -> Config {
    let mut config = Config::default();
    config.clipboard.retention_period = 1;
    config.clipboard.max_size = 100;
    config
}

fn create_test_data(user_id: u128, device_id: u128) -> ClipboardData {
    ClipboardData::new("test content".to_string(), device_id, user_id)
}

#[test]
fn test_save_and_get_clipboard() {
    let mut service = ClipboardService::new(&create_test_config());
    let user_id = fresh_id();
    let device_id = fresh_id();

    let data = create_test_data(user_id, device_id);
    let saved_data = service.save_clipboard(data.clone()).unwrap();

    let retrieved_data = service.get_clipboard(saved_data.id).unwrap();
    assert_eq!(retrieved_data.content, "test content");
    assert_eq!(retrieved_data.user_id, user_id);
    assert_eq!(retrieved_data.device_id, device_id);
}

#[test]
fn test_get_user_clipboard() {
    let mut service = ClipboardService::new(&create_test_config());
    let user_id = fresh_id();
    let device_id = fresh_id();

    for i in 0..3 {
        let mut data = create_test_data(user_id, device_id);
        data.content = format!("content {}", i);
        service.save_clipboard(data).unwrap();
    }

    let user_data = service.get_user_clipboard(user_id).unwrap();
    assert_eq!(user_data.len(), 3);
}

#[test]
fn test_content_too_large() {
    let mut service = ClipboardService::new(&create_test_config());
    let user_id = fresh_id();
    let device_id = fresh_id();

    let mut data = create_test_data(user_id, device_id);
    data.content = "x".repeat(101);

    let result = service.save_clipboard(data);
    assert!(matches!(
        result,
        Err(AppError::ValidationError(msg)) if msg.contains("exceeds maximum size")
    ));
}

#[test]
fn test_delete_unauthorized() {
    let mut service = ClipboardService::new(&create_test_config());
    let user_id = fresh_id();
    let other_user_id = fresh_id();
    let device_id = fresh_id();

    let data = create_test_data(user_id, device_id);
    let saved_data = service.save_clipboard(data).unwrap();

    let result = service.delete_clipboard(saved_data.id, other_user_id);
    assert!(matches!(result, Err(AppError::DeviceUnauthorized(_))));
}

#[test]
fn test_broadcast_updates() {
    let mut service = ClipboardService::new(&create_test_config());
    let mut rx1 = service.subscribe();
    let mut rx2 = service.subscribe();

    let user_id = fresh_id();
    let device_id = fresh_id();
    let data = create_test_data(user_id, device_id);

    let saved_data = service.save_clipboard(data).unwrap();

    let received1 = rx1.try_recv().unwrap();
    let received2 = rx2.try_recv().unwrap();

    assert_eq!(received1.id, saved_data.id);
    assert_eq!(received2.id, saved_data.id);
}

#[test]
fn test_cleanup_old_data() {
    let mut service = ClipboardService::new(&create_test_config());
    let user_id = fresh_id();
    let device_id = fresh_id();

    let data = create_test_data(user_id, device_id);
    let now = 1_000_000;
    service.save_clipboard_at(data, now).unwrap();

    service.cleanup_old_data_at(now + 2).unwrap();

    let result = service.get_user_clipboard(user_id);
    assert!(result.is_err());
}

#[test]
fn late_subscriber_misses_earlier_saves() {
    let mut service = ClipboardService::new(&create_test_config());
    let data = create_test_data(fresh_id(), fresh_id());
    service.save_clipboard(data).unwrap();

    let mut late = service.subscribe();
    assert!(matches!(
        late.try_recv(),
        Err(tokio::sync::broadcast::error::TryRecvError::Empty)
    ));
}

#[test]
fn save_stamps_received_at_and_defaults_sent_at() {
    let mut service = ClipboardService::new(&create_test_config());
    let data = create_test_data(1, 2);
    assert_eq!(data.sent_at, 0);

    let saved = service.save_clipboard_at(data.clone(), 42).unwrap();
    assert_eq!(saved.received_at, 42);
    assert_eq!(saved.sent_at, 42);
    assert_eq!(saved.id, data.id);
    assert_eq!(saved.content, data.content);

    let mut stamped_by_client = create_test_data(1, 2);
    stamped_by_client.sent_at = 7;
    let saved2 = service.save_clipboard_at(stamped_by_client, 42).unwrap();
    assert_eq!(saved2.sent_at, 7);
    assert_eq!(saved2.received_at, 42);
}

#[test]
fn save_with_same_id_replaces_the_entry() {
    let mut service = ClipboardService::new(&create_test_config());
    let mut data = create_test_data(1, 2);
    data.content = "first".to_string();
    let saved = service.save_clipboard_at(data.clone(), 10).unwrap();

    let mut newer = data.clone();
    newer.content = "second".to_string();
    newer.id = saved.id;
    service.save_clipboard_at(newer, 11).unwrap();

    let got = service.get_clipboard(saved.id).unwrap();
    assert_eq!(got.content, "second");
    assert_eq!(service.get_user_clipboard(1).unwrap().len(), 1);
}

#[test]
fn content_at_exactly_the_bound_is_accepted() {
    let mut service = ClipboardService::new(&create_test_config());
    let mut data = create_test_data(1, 2);
    data.content = "x".repeat(100);
    assert!(service.save_clipboard(data).is_ok());
}

#[test]
fn get_missing_entry_is_not_found() {
    let service = ClipboardService::new(&create_test_config());
    assert!(matches!(service.get_clipboard(99), Err(AppError::ClipboardNotFound(99))));
}

#[test]
fn oversized_save_leaves_store_unchanged() {
    let mut service = ClipboardService::new(&create_test_config());
    let a = create_test_data(1, 2);
    service.save_clipboard(a.clone()).unwrap();

    let mut b = create_test_data(1, 2);
    b.content = "x".repeat(101);
    assert!(service.save_clipboard(b).is_err());

    let listing = service.get_user_clipboard(1).unwrap();
    assert_eq!(listing.len(), 1);
    assert_eq!(listing[0].id, a.id);
}

#[test]
fn save_hello_then_get_and_list_scenario() {
    let max = create_test_config().clipboard.max_size;
    let mut service = ClipboardService::new(&create_test_config());
    let u1 = fresh_id();
    let d1 = fresh_id();

    let a = ClipboardData::new("hello".to_string(), d1, u1);
    let saved_a = service.save_clipboard(a).unwrap();
    assert_eq!(service.get_clipboard(saved_a.id).unwrap().content, "hello");

    let b = ClipboardData::new("x".repeat(max + 1), d1, u1);
    let result = service.save_clipboard(b);
    assert!(matches!(result, Err(AppError::ValidationError(_))));

    let listing = service.get_user_clipboard(u1).unwrap();
    assert_eq!(listing.len(), 1);
    assert_eq!(listing[0].id, saved_a.id);
}

#[test]
fn cross_user_delete_is_forbidden_and_entry_survives() {
    let mut service = ClipboardService::new(&create_test_config());
    let u1 = fresh_id();
    let u2 = fresh_id();

    let a = ClipboardData::new("hello".to_string(), fresh_id(), u1);
    let saved_a = service.save_clipboard(a).unwrap();

    let result = service.delete_clipboard(saved_a.id, u2);
    assert!(matches!(result, Err(AppError::DeviceUnauthorized(_))));
    assert!(service.get_clipboard(saved_a.id).is_ok());
}

#[test]
fn owner_can_delete_an_entry() {
    let mut service = ClipboardService::new(&create_test_config());
    let a = create_test_data(1, 2);
    let saved = service.save_clipboard(a).unwrap();
    assert!(service.delete_clipboard(saved.id, 1).is_ok());
    assert!(matches!(service.get_clipboard(saved.id), Err(AppError::ClipboardNotFound(_))));
    assert!(matches!(service.delete_clipboard(saved.id, 1), Err(AppError::ClipboardNotFound(_))));
}

#[test]
fn delete_user_clipboard_removes_only_that_user() {
    let mut service = ClipboardService::new(&create_test_config());
    service.save_clipboard(create_test_data(1, 10)).unwrap();
    service.save_clipboard(create_test_data(1, 10)).unwrap();
    service.save_clipboard(create_test_data(2, 20)).unwrap();

    service.delete_user_clipboard(1).unwrap();
    assert!(service.get_user_clipboard(1).is_err());
    assert_eq!(service.get_user_clipboard(2).unwrap().len(), 1);
    assert!(service.delete_user_clipboard(1).is_err());
}

#[test]
fn eviction_boundary_is_inclusive() {
    let mut service = ClipboardService::new(&create_test_config());
    let retention = 1;
    let now = 500;
    service.save_clipboard_at(create_test_data(1, 2), now).unwrap();

    service.cleanup_old_data_at(now + retention - 1).unwrap();
    assert_eq!(service.get_user_clipboard(1).unwrap().len(), 1);

    service.cleanup_old_data_at(now + retention).unwrap();
    assert!(service.get_user_clipboard(1).is_err());
}

#[test]
fn listings_come_back_newest_first() {
    let mut service = ClipboardService::new(&create_test_config());
    let mut older = create_test_data(1, 2);
    older.content = "older".to_string();
    let mut newer = create_test_data(1, 2);
    newer.content = "newer".to_string();
    let mut middle = create_test_data(1, 2);
    middle.content = "middle".to_string();

    service.save_clipboard_at(older, 10).unwrap();
    service.save_clipboard_at(newer, 30).unwrap();
    service.save_clipboard_at(middle, 20).unwrap();

    let listing = service.get_user_clipboard(1).unwrap();
    let contents: Vec<&str> = listing.iter().map(|e| e.content.as_str()).collect();
    assert_eq!(contents, vec!["newer", "middle", "older"]);

    let by_device = service.get_device_clipboard(2).unwrap();
    assert_eq!(by_device.len(), 3);
    assert_eq!(by_device[0].content, "newer");
}

#[test]
fn latest_entry_has_the_greatest_received_at() {
    let mut service = ClipboardService::new(&create_test_config());
    assert!(matches!(
        service.get_latest_clipboard(1),
        Err(AppError::ClipboardNotFound(1))
    ));

    service.save_clipboard_at(create_test_data(1, 2), 10).unwrap();
    let mut top = create_test_data(1, 2);
    top.content = "latest".to_string();
    service.save_clipboard_at(top, 99).unwrap();
    service.save_clipboard_at(create_test_data(1, 2), 50).unwrap();

    let latest = service.get_latest_clipboard(1).unwrap();
    assert_eq!(latest.content, "latest");
    assert_eq!(latest.received_at, 99);
}
