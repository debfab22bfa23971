//! End-to-end tests of the service core: the data-access operations against
//! the in-memory table and the request-handling layer around them.

use user_service::api::{
    all_users_response, confirm_password_response, created_response, delete_outcome_response,
    fetched_user_response, handle_confirm_password, handle_create_user, handle_delete_user,
    handle_get_all_users, handle_get_user, handle_get_user_by_username,
    handle_update_user_password, update_password_outcome, update_password_precheck,
};
use user_service::model::{Response, StorageError, User};
use user_service::store::{
    create_user, delete_user, get_all_users, get_user_by_id, get_user_by_username, insert_user,
    update_user_password, UserStore,
};

fn boom() -> StorageError {
    StorageError { msg: "boom".to_string() }
}

#[test]
fn test_create_and_get_user() {
    let mut store = UserStore::new();
    let username = "test_user_1";
    let password = "password123";

    let new_user = create_user(&mut store, username, password).expect("Failed to create user");
    assert_eq!(new_user.username, username);

    let fetched_user = get_user_by_id(&store, new_user.id.as_str()).expect("User should exist");
    assert_eq!(fetched_user.id, new_user.id);
}

#[test]
fn test_get_all_users() {
    let mut store = UserStore::new();
    create_user(&mut store, "user_a", "pass_a").unwrap();
    create_user(&mut store, "user_b", "pass_b").unwrap();

    let users = get_all_users(&store);
    assert_eq!(users.len(), 2);
}

#[test]
fn test_update_user_password() {
    let mut store = UserStore::new();
    let user = create_user(&mut store, "user_to_update", "old_password").unwrap();

    let new_password = "new_strong_password";
    let rows_affected = update_user_password(&mut store, user.id.as_str(), new_password);

    assert_eq!(rows_affected, 1);
}

#[test]
fn test_delete_user() {
    let mut store = UserStore::new();
    let user = create_user(&mut store, "user_to_delete", "some_password").unwrap();

    let was_deleted = delete_user(&mut store, user.id.as_str()) > 0;
    assert!(was_deleted);

    let maybe_user = get_user_by_id(&store, user.id.as_str());
    assert!(maybe_user.is_none());
}

#[test]
fn created_user_comes_back_with_its_fields_and_a_fresh_id() {
    let mut store = UserStore::new();
    let first = handle_create_user(&mut store, "alice", "p1");
    assert!(first.was_success);
    assert_eq!(first.msg, "User created successfully");
    let first_user = first.data.expect("created entity should be echoed");
    assert_eq!(first_user.username, "alice");
    assert_eq!(first_user.password, "p1");
    assert_eq!(first_user.id.len(), 36);

    let second = handle_create_user(&mut store, "bob", "p2");
    let second_user = second.data.expect("created entity should be echoed");
    assert_ne!(first_user.id, second_user.id);

    let fetched = handle_get_user(&store, first_user.id.as_str());
    assert!(fetched.was_success);
    let fetched_user = fetched.data.expect("found user should be echoed");
    assert_eq!(fetched_user.username, "alice");
    assert_eq!(fetched_user.password, "p1");
}

#[test]
fn creating_a_taken_username_fails_with_the_storage_text() {
    let mut store = UserStore::new();
    assert!(handle_create_user(&mut store, "alice", "p1").was_success);
    let again = handle_create_user(&mut store, "alice", "other");
    assert!(!again.was_success);
    assert!(again.data.is_none());
    assert_eq!(
        again.msg,
        "Failed to create user: duplicate key value violates a unique constraint on username"
    );
    assert_eq!(get_all_users(&store).len(), 1);
}

#[test]
fn missing_id_and_username_report_not_found_never_a_storage_error() {
    let mut store = UserStore::new();
    handle_create_user(&mut store, "alice", "p1");

    let by_id = handle_get_user(&store, "no-such-id");
    assert!(!by_id.was_success);
    assert!(by_id.data.is_none());
    assert_eq!(by_id.msg, "User was not found");

    let by_name = handle_get_user_by_username(&store, "nobody");
    assert!(!by_name.was_success);
    assert!(by_name.data.is_none());
    assert_eq!(by_name.msg, "User was not found");
}

#[test]
fn get_by_username_is_an_exact_match() {
    let mut store = UserStore::new();
    handle_create_user(&mut store, "alice", "p1");
    assert!(handle_get_user_by_username(&store, "alice").was_success);
    assert!(!handle_get_user_by_username(&store, "Alice").was_success);
    assert!(!handle_get_user_by_username(&store, "alic").was_success);
}

#[test]
fn confirm_succeeds_exactly_on_the_stored_password() {
    let mut store = UserStore::new();
    let user = handle_create_user(&mut store, "alice", "p1").data.unwrap();

    let right = handle_confirm_password(&store, user.id.as_str(), "p1");
    assert!(right.was_success);
    assert!(right.data.is_none());
    assert_eq!(right.msg, "Password comfirmed successfully");

    let wrong = handle_confirm_password(&store, user.id.as_str(), "p2");
    assert!(!wrong.was_success);
    assert_eq!(wrong.msg, "Password comfirmed failed");

    let missing = handle_confirm_password(&store, "no-such-id", "p1");
    assert!(!missing.was_success);
    assert_eq!(missing.msg, "User was not found");
}

#[test]
fn update_with_wrong_old_password_changes_nothing() {
    let mut store = UserStore::new();
    let user = handle_create_user(&mut store, "alice", "p1").data.unwrap();

    let refused = handle_update_user_password(&mut store, user.id.as_str(), "wrong", "p2");
    assert!(!refused.was_success);
    assert_eq!(refused.msg, "Old password is incorrect");

    // the stored password is untouched
    assert!(handle_confirm_password(&store, user.id.as_str(), "p1").was_success);
    assert!(!handle_confirm_password(&store, user.id.as_str(), "p2").was_success);
    let stored = get_user_by_id(&store, user.id.as_str()).unwrap();
    assert_eq!(stored.password, "p1");
}

#[test]
fn update_then_confirm_scenario() {
    let mut store = UserStore::new();
    let created = handle_create_user(&mut store, "alice", "p1");
    assert!(created.was_success);
    let user = created.data.unwrap();

    let refused = handle_update_user_password(&mut store, user.id.as_str(), "wrong", "p2");
    assert!(!refused.was_success);
    assert_eq!(refused.msg, "Old password is incorrect");

    let accepted = handle_update_user_password(&mut store, user.id.as_str(), "p1", "p2");
    assert!(accepted.was_success);
    assert_eq!(accepted.msg, "User password updated successfully");

    assert!(!handle_confirm_password(&store, user.id.as_str(), "p1").was_success);
    assert!(handle_confirm_password(&store, user.id.as_str(), "p2").was_success);
}

#[test]
fn updating_a_missing_user_reports_not_found() {
    let mut store = UserStore::new();
    let resp = handle_update_user_password(&mut store, "no-such-id", "old", "new");
    assert!(!resp.was_success);
    assert_eq!(resp.msg, "User was not found");
}

#[test]
fn delete_then_get_reports_not_found() {
    let mut store = UserStore::new();
    let user = handle_create_user(&mut store, "alice", "p1").data.unwrap();

    let deleted = handle_delete_user(&mut store, user.id.as_str());
    assert!(deleted.was_success);
    assert!(deleted.data.is_none());
    assert_eq!(deleted.msg, "User deleted successfully");

    let fetched = handle_get_user(&store, user.id.as_str());
    assert!(!fetched.was_success);
    assert_eq!(fetched.msg, "User was not found");

    let again = handle_delete_user(&mut store, user.id.as_str());
    assert!(!again.was_success);
    assert_eq!(again.msg, "User was not found");
}

#[test]
fn listing_counts_creates_minus_deletes() {
    let mut store = UserStore::new();
    let a = handle_create_user(&mut store, "a", "pa").data.unwrap();
    let b = handle_create_user(&mut store, "b", "pb").data.unwrap();
    let c = handle_create_user(&mut store, "c", "pc").data.unwrap();
    assert_eq!(handle_get_all_users(&store).data.unwrap().len(), 3);

    assert!(handle_delete_user(&mut store, a.id.as_str()).was_success);
    assert!(handle_delete_user(&mut store, c.id.as_str()).was_success);

    let listing = handle_get_all_users(&store);
    assert!(listing.was_success);
    assert_eq!(listing.msg, "Users retrieved successfully");
    let left = listing.data.unwrap();
    assert_eq!(left.len(), 1);
    assert_eq!(left[0].id, b.id);
    assert_eq!(left[0].username, "b");
    assert_eq!(store.len(), 1);
}

#[test]
fn inserting_a_taken_id_or_username_reports_the_violated_constraint() {
    let mut store = UserStore::new();
    let seeded = insert_user(
        &mut store,
        "fixed-id-1".to_string(),
        "alice".to_string(),
        "p1".to_string(),
    )
    .expect("fresh id and username");
    assert_eq!(seeded.id, "fixed-id-1");

    let same_id = insert_user(
        &mut store,
        "fixed-id-1".to_string(),
        "bob".to_string(),
        "p2".to_string(),
    );
    assert_eq!(
        same_id.unwrap_err().msg,
        "duplicate key value violates a unique constraint on id"
    );

    let same_name = insert_user(
        &mut store,
        "fixed-id-2".to_string(),
        "alice".to_string(),
        "p2".to_string(),
    );
    assert_eq!(
        same_name.unwrap_err().msg,
        "duplicate key value violates a unique constraint on username"
    );
    assert_eq!(store.len(), 1);
}

#[test]
fn listing_an_empty_table_succeeds_with_no_users() {
    let store = UserStore::new();
    let listing = handle_get_all_users(&store);
    assert!(listing.was_success);
    assert_eq!(listing.data.unwrap().len(), 0);
}

#[test]
fn storage_failures_are_wrapped_with_their_text() {
    let created = created_response(Err(boom()));
    assert!(!created.was_success);
    assert_eq!(created.msg, "Failed to create user: boom");

    let fetched = fetched_user_response(Err(boom()));
    assert!(!fetched.was_success);
    assert!(fetched.data.is_none());
    assert_eq!(fetched.msg, "Failed to retrieve user: boom");

    let listed = all_users_response(Err(boom()));
    assert!(!listed.was_success);
    assert_eq!(listed.msg, "Failed to retrieve users with err: boom");

    let confirmed = confirm_password_response(Err(boom()), "p1");
    assert!(!confirmed.was_success);
    assert_eq!(confirmed.msg, "Failed to retrieve user: boom");

    let deleted = delete_outcome_response(Err(boom()));
    assert!(!deleted.was_success);
    assert_eq!(deleted.msg, "Failed to delete user: boom");
}

#[test]
fn update_steps_report_each_failure_distinctly() {
    let precheck_missing = update_password_precheck(Ok(None), "old");
    assert_eq!(precheck_missing.unwrap_err().msg, "User was not found");

    let precheck_error = update_password_precheck(Err(boom()), "old");
    assert_eq!(
        precheck_error.unwrap_err().msg,
        "Failed to update user password: boom"
    );

    let stored = User {
        id: "some-id".to_string(),
        username: "alice".to_string(),
        password: "p1".to_string(),
    };
    let precheck_mismatch = update_password_precheck(Ok(Some(stored)), "p2");
    assert_eq!(
        precheck_mismatch.unwrap_err().msg,
        "Old password is incorrect"
    );

    let vanished = update_password_outcome(Ok(0));
    assert!(!vanished.was_success);
    assert_eq!(vanished.msg, "You can't update password for a not exist user");

    let written = update_password_outcome(Ok(1));
    assert!(written.was_success);
    assert_eq!(written.msg, "User password updated successfully");

    let failed = update_password_outcome(Err(boom()));
    assert!(!failed.was_success);
    assert_eq!(failed.msg, "Failed to update user password: boom");
}

#[test]
fn with_error_builds_the_failure_envelope() {
    let resp: Response<()> = Response::with_error("anything".to_string());
    assert!(!resp.was_success);
    assert!(resp.data.is_none());
    assert_eq!(resp.msg, "anything");
}

#[test]
fn username_lookup_finds_the_right_row_among_many() {
    let mut store = UserStore::new();
    handle_create_user(&mut store, "alice", "p1");
    handle_create_user(&mut store, "bob", "p2");
    handle_create_user(&mut store, "carol", "p3");

    let found = get_user_by_username(&store, "bob").expect("bob exists");
    assert_eq!(found.username, "bob");
    assert_eq!(found.password, "p2");

    let envelope = handle_get_user_by_username(&store, "carol");
    assert_eq!(envelope.data.unwrap().password, "p3");
}
