use clipman_platform::AppError;
use clipman_platform::Config;
use clipman_platform::UserService;

fn user_test_config() -> Config {
    let mut config = Config::default();
    config.user.min_password_length = 8;
    config
}

#[test]
fn register_and_look_up_a_user() {
    let mut service = UserService::new(&user_test_config());
    let user = service.register_user("alice".to_string(), "longenough".to_string()).unwrap();
    assert_eq!(user.username, "alice");
    assert!(user.created_at.is_none());

    let found = service.get_user_by_username("alice").unwrap();
    assert_eq!(found.id, user.id);
    assert_eq!(service.user_count(), 1);

    assert!(matches!(
        service.get_user_by_username("bob"),
        Err(AppError::ValidationError(_))
    ));
}

#[test]
fn short_passwords_are_rejected() {
    let mut service = UserService::new(&user_test_config());
    let result = service.register_user("alice".to_string(), "short".to_string());
    assert!(matches!(
        result,
        Err(AppError::ValidationError(msg)) if msg.contains("too short")
    ));
    assert_eq!(service.user_count(), 0);
}

#[test]
fn duplicate_usernames_are_rejected() {
    let mut service = UserService::new(&user_test_config());
    service.register_user("alice".to_string(), "longenough".to_string()).unwrap();
    let result = service.register_user("alice".to_string(), "otherpassword".to_string());
    assert!(matches!(
        result,
        Err(AppError::UserAlreadyExists(name)) if name == "alice"
    ));
    assert_eq!(service.user_count(), 1);
}

#[test]
fn stored_hash_verifies_the_right_password_only() {
    let mut service = UserService::new(&user_test_config());
    let user = service.register_user("alice".to_string(), "correct horse".to_string()).unwrap();
    assert_ne!(user.password_hash, "correct horse");

    assert_eq!(service.verify_password(&user, "correct horse").unwrap(), true);
    assert_eq!(service.verify_password(&user, "wrong horse").unwrap(), false);
}

#[test]
fn malformed_stored_hash_is_an_internal_error() {
    let service = UserService::new(&user_test_config());
    let user = clipman_platform::User {
        id: 1,
        username: "alice".to_string(),
        password_hash: "not a phc hash".to_string(),
        created_at: None,
        updated_at: None,
    };
    assert!(matches!(
        service.verify_password(&user, "anything"),
        Err(AppError::InternalError(_))
    ));
}

#[test]
fn add_user_succeeds_exactly_on_fresh_names() {
    let mut service = UserService::new(&user_test_config());
    let added = service.add_user("alice".to_string(), "stored-hash".to_string()).unwrap();
    assert_eq!(added.username, "alice");
    assert_eq!(added.password_hash, "stored-hash");

    let again = service.add_user("alice".to_string(), "other-hash".to_string());
    assert!(matches!(again, Err(AppError::UserAlreadyExists(_))));
    assert_eq!(service.user_count(), 1);
}

#[test]
fn listing_is_sorted_by_username() {
    let mut service = UserService::new(&user_test_config());
    service.register_user("charlie".to_string(), "password1".to_string()).unwrap();
    service.register_user("alice".to_string(), "password2".to_string()).unwrap();
    service.register_user("bob".to_string(), "password3".to_string()).unwrap();

    let listing = service.list_users().unwrap();
    let names: Vec<&str> = listing.iter().map(|u| u.username.as_str()).collect();
    assert_eq!(names, vec!["alice", "bob", "charlie"]);
}

#[test]
fn pagination_cuts_the_sorted_listing() {
    let mut service = UserService::new(&user_test_config());
    for name in ["delta", "alpha", "echo", "bravo", "charlie"] {
        service.register_user(name.to_string(), "password!".to_string()).unwrap();
    }

    let page1 = service.list_users_paginated(1, 2);
    let page2 = service.list_users_paginated(2, 2);
    let page3 = service.list_users_paginated(3, 2);
    let beyond = service.list_users_paginated(9, 2);

    let names1: Vec<&str> = page1.iter().map(|u| u.username.as_str()).collect();
    let names2: Vec<&str> = page2.iter().map(|u| u.username.as_str()).collect();
    let names3: Vec<&str> = page3.iter().map(|u| u.username.as_str()).collect();
    assert_eq!(names1, vec!["alpha", "bravo"]);
    assert_eq!(names2, vec!["charlie", "delta"]);
    assert_eq!(names3, vec!["echo"]);
    assert!(beyond.is_empty());
}

#[test]
fn test_user_serialization() {
    let user = clipman_platform::User::new(
        "testuser".to_string(),
        "hashedpassword123".to_string(),
    );

    let outward = clipman_platform::UserResponse::from(user);
    let rendered = format!("{:?}", outward);

    // The outward shape carries id and username, never the password hash.
    assert!(rendered.contains("username"));
    assert!(rendered.contains("id"));
    assert!(!rendered.contains("password_hash"));
}

#[test]
fn absent_registry_reports_ids_as_unknown() {
    let service = UserService::new(&user_test_config());
    assert!(matches!(service.get_user_by_id(4), Err(AppError::UserNotFound(4))));
    assert!(matches!(service.update_user(4), Err(AppError::UserNotFound(4))));
    assert!(matches!(service.update_password(4, "old"), Err(AppError::UserNotFound(4))));
    assert!(matches!(service.delete_user(4), Err(AppError::UserNotFound(4))));
}
