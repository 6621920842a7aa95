use user_service::error::AppError;
use user_service::models::CreateUserRequest;
use user_service::models::UpdateUserRequest;
use user_service::models::User;
use user_service::store::UserStore;

fn create_req(username: &str, email: Option<&str>) -> CreateUserRequest {
    CreateUserRequest {
        username: username.to_string(),
        email: email.map(|s| s.to_string()),
        first_name: None,
        last_name: None,
        bio: None,
        avatar_url: None,
    }
}

fn empty_update() -> UpdateUserRequest {
    UpdateUserRequest {
        username: None,
        email: None,
        first_name: None,
        last_name: None,
        bio: None,
        avatar_url: None,
        is_active: None,
    }
}

#[test]
fn create_stamps_record() {
    let mut store = UserStore::new();
    let user = store
        .create_user_at(create_req("ada", Some("ada@x.io")), 7, 100)
        .unwrap();
    assert_eq!(user.id, 7);
    assert_eq!(user.username, "ada");
    assert_eq!(user.email.as_deref(), Some("ada@x.io"));
    assert_eq!(user.first_name, None);
    assert_eq!(user.last_name, None);
    assert_eq!(user.bio, None);
    assert_eq!(user.avatar_url, None);
    assert!(user.is_active);
    assert_eq!(user.created_at, 100);
    assert_eq!(user.created_at, user.updated_at);
}

#[test]
fn create_duplicate_id_is_store_error() {
    let mut store = UserStore::new();
    store.create_user_at(create_req("ada", None), 7, 100).unwrap();
    let err = store
        .create_user_at(create_req("grace", None), 7, 200)
        .unwrap_err();
    assert!(matches!(err, AppError::StoreError(_)));
    assert_eq!(err.status_code(), 500);
    // the clash left the table untouched
    assert_eq!(store.get_all_users().len(), 1);
}

#[test]
fn create_with_generated_identity() {
    let mut store = UserStore::new();
    let first = store.create_user(create_req("ada", None)).unwrap();
    let second = store.create_user(create_req("grace", None)).unwrap();
    assert!(first.is_active);
    assert_eq!(first.created_at, first.updated_at);
    assert_ne!(first.id, second.id);
}

#[test]
fn get_one_returns_active_record() {
    let mut store = UserStore::new();
    store.create_user_at(create_req("ada", None), 7, 100).unwrap();
    let user = store.get_user_by_id(7).unwrap();
    assert_eq!(user.id, 7);
    assert_eq!(user.username, "ada");
}

#[test]
fn get_one_missing_is_not_found() {
    let store = UserStore::new();
    let err = store.get_user_by_id(7).unwrap_err();
    match err {
        AppError::NotFound(ref m) => assert_eq!(m, "User not found"),
        _ => panic!("expected NotFound"),
    }
    assert_eq!(err.status_code(), 404);
}

#[test]
fn get_one_after_soft_delete_is_not_found() {
    let mut store = UserStore::new();
    store.create_user_at(create_req("ada", None), 7, 100).unwrap();
    store.delete_user(7).unwrap();
    let err = store.get_user_by_id(7).unwrap_err();
    assert!(matches!(err, AppError::NotFound(_)));
}

#[test]
fn update_merges_partial_fields() {
    let mut store = UserStore::new();
    store
        .create_user_at(create_req("ada", Some("ada@x.io")), 7, 100)
        .unwrap();
    let mut req = empty_update();
    req.bio = Some("mathematician".to_string());
    let user = store.update_user_at(7, req, 200).unwrap();
    // absent fields are byte-identical to their pre-update values
    assert_eq!(user.username, "ada");
    assert_eq!(user.email.as_deref(), Some("ada@x.io"));
    assert_eq!(user.first_name, None);
    // present fields are replaced exactly
    assert_eq!(user.bio.as_deref(), Some("mathematician"));
    // updated_at strictly increases; created_at never moves
    assert_eq!(user.created_at, 100);
    assert_eq!(user.updated_at, 200);
    assert!(user.updated_at > user.created_at);
}

#[test]
fn update_replaces_every_supplied_field() {
    let mut store = UserStore::new();
    store.create_user_at(create_req("ada", None), 7, 100).unwrap();
    let req = UpdateUserRequest {
        username: Some("countess".to_string()),
        email: Some("ada@analytical.engine".to_string()),
        first_name: Some("Ada".to_string()),
        last_name: Some("Lovelace".to_string()),
        bio: Some("first programmer".to_string()),
        avatar_url: Some("https://example.test/ada.png".to_string()),
        is_active: Some(true),
    };
    let user = store.update_user_at(7, req, 200).unwrap();
    assert_eq!(user.username, "countess");
    assert_eq!(user.email.as_deref(), Some("ada@analytical.engine"));
    assert_eq!(user.first_name.as_deref(), Some("Ada"));
    assert_eq!(user.last_name.as_deref(), Some("Lovelace"));
    assert_eq!(user.bio.as_deref(), Some("first programmer"));
    assert_eq!(user.avatar_url.as_deref(), Some("https://example.test/ada.png"));
    assert!(user.is_active);
}

#[test]
fn update_missing_id_is_not_found() {
    let mut store = UserStore::new();
    let err = store.update_user_at(7, empty_update(), 100).unwrap_err();
    assert!(matches!(err, AppError::NotFound(_)));
    assert_eq!(err.status_code(), 404);
}

#[test]
fn update_touches_no_other_row() {
    let mut store = UserStore::new();
    store.create_user_at(create_req("ada", None), 7, 100).unwrap();
    store.create_user_at(create_req("grace", None), 8, 200).unwrap();
    let mut req = empty_update();
    req.bio = Some("navy".to_string());
    store.update_user_at(8, req, 300).unwrap();
    let untouched = store.get_user_by_id(7).unwrap();
    assert_eq!(untouched.username, "ada");
    assert_eq!(untouched.bio, None);
    assert_eq!(untouched.updated_at, 100);
}

#[test]
fn update_can_deactivate_and_reactivate() {
    let mut store = UserStore::new();
    store.create_user_at(create_req("ada", None), 7, 100).unwrap();
    let mut off = empty_update();
    off.is_active = Some(false);
    let user = store.update_user_at(7, off, 200).unwrap();
    assert!(!user.is_active);
    assert!(matches!(store.get_user_by_id(7), Err(AppError::NotFound(_))));
    // update does not require the row to be active: it can bring it back
    let mut on = empty_update();
    on.is_active = Some(true);
    let user = store.update_user_at(7, on, 300).unwrap();
    assert!(user.is_active);
    assert_eq!(store.get_user_by_id(7).unwrap().username, "ada");
}

#[test]
fn soft_delete_twice_succeeds_both_times() {
    let mut store = UserStore::new();
    store.create_user_at(create_req("ada", None), 7, 100).unwrap();
    assert!(store.delete_user(7).is_ok());
    assert!(store.delete_user(7).is_ok());
}

#[test]
fn soft_delete_missing_id_is_not_found() {
    let mut store = UserStore::new();
    let err = store.delete_user(7).unwrap_err();
    assert!(matches!(err, AppError::NotFound(_)));
    assert_eq!(err.status_code(), 404);
}

#[test]
fn soft_delete_keeps_timestamps() {
    let mut store = UserStore::new();
    store.create_user_at(create_req("ada", None), 7, 100).unwrap();
    store.delete_user(7).unwrap();
    // the row is still reachable through update, which sees any state
    let user = store.update_user_at(7, empty_update(), 200).unwrap();
    assert_eq!(user.created_at, 100);
    assert!(!user.is_active);
}

#[test]
fn list_empty_store_is_empty() {
    let store = UserStore::new();
    assert!(store.get_all_users().is_empty());
}

#[test]
fn list_excludes_soft_deleted() {
    let mut store = UserStore::new();
    store.create_user_at(create_req("ada", None), 7, 100).unwrap();
    store.create_user_at(create_req("grace", None), 8, 200).unwrap();
    store.create_user_at(create_req("edsger", None), 9, 300).unwrap();
    store.delete_user(8).unwrap();
    let users = store.get_all_users();
    let ids: Vec<u128> = users.iter().map(|u| u.id).collect();
    assert_eq!(ids, vec![9, 7]);
}

#[test]
fn list_excludes_update_deactivated() {
    let mut store = UserStore::new();
    store.create_user_at(create_req("ada", None), 7, 100).unwrap();
    store.create_user_at(create_req("grace", None), 8, 200).unwrap();
    let mut off = empty_update();
    off.is_active = Some(false);
    store.update_user_at(7, off, 300).unwrap();
    let ids: Vec<u128> = store.get_all_users().iter().map(|u| u.id).collect();
    assert_eq!(ids, vec![8]);
}

#[test]
fn list_orders_newest_first() {
    let mut store = UserStore::new();
    store.create_user_at(create_req("ada", None), 7, 100).unwrap();
    store.create_user_at(create_req("grace", None), 8, 300).unwrap();
    store.create_user_at(create_req("edsger", None), 9, 200).unwrap();
    let ids: Vec<u128> = store.get_all_users().iter().map(|u| u.id).collect();
    assert_eq!(ids, vec![8, 9, 7]);
}

#[test]
fn full_name_projection() {
    let base = User {
        id: 1,
        username: "ada".to_string(),
        email: None,
        first_name: None,
        last_name: None,
        bio: None,
        avatar_url: None,
        is_active: true,
        created_at: 0,
        updated_at: 0,
    };
    assert_eq!(base.full_name(), None);

    let mut both = base.clone();
    both.first_name = Some("Ada".to_string());
    both.last_name = Some("Lovelace".to_string());
    assert_eq!(both.full_name().as_deref(), Some("Ada Lovelace"));

    let mut first_only = base.clone();
    first_only.first_name = Some("Ada".to_string());
    assert_eq!(first_only.full_name().as_deref(), Some("Ada"));

    let mut last_only = base.clone();
    last_only.last_name = Some("Lovelace".to_string());
    assert_eq!(last_only.full_name().as_deref(), Some("Lovelace"));
}

#[test]
fn scenario_create_update_delete_get_list() {
    let mut store = UserStore::new();
    let created = store
        .create_user_at(create_req("ada", Some("ada@x.io")), 42, 1_000)
        .unwrap();
    assert!(created.is_active);
    assert_eq!(created.bio, None);

    let mut req = empty_update();
    req.bio = Some("mathematician".to_string());
    let updated = store.update_user_at(42, req, 2_000).unwrap();
    assert_eq!(updated.username, "ada");
    assert_eq!(updated.bio.as_deref(), Some("mathematician"));
    assert!(updated.updated_at > created.updated_at);

    assert!(store.delete_user(42).is_ok());

    let err = store.get_user_by_id(42).unwrap_err();
    assert_eq!(err.status_code(), 404);

    let ids: Vec<u128> = store.get_all_users().iter().map(|u| u.id).collect();
    assert!(!ids.contains(&42));
}
