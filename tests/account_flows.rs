use ideno::account::{
    account_update_field, check_account_value_free, check_admin_delete, check_password_change,
    credentials_outcome, login, register, update_password, admin_target, AccountField,
};
use ideno::auth::{check_user, SessionService};
use ideno::error::AppError;
use ideno::models::UserModel;
use ideno::password::{password_matches, HASH_COST};
use ideno::payloads::{AccountUpdatePayload, PasswordUpdatePayload, RegisterCredentials};

const TEST_COST: u32 = 4;

fn stored(id: i32, username: &str, email: &str, hash: String, role: &str) -> UserModel {
    UserModel {
        id,
        username: username.to_string(),
        email: email.to_string(),
        password: hash,
        role: role.to_string(),
        created_at: "2024-01-01 00:00:00".to_string(),
    }
}

fn bad_request(r: Result<impl std::fmt::Debug, AppError>) -> String {
    match r {
        Err(AppError::BadRequest { error: Some(m) }) => m,
        other => panic!("expected a bad request, got {:?}", other),
    }
}

#[test]
fn register_login_delete_scenario() {
    let alice = RegisterCredentials {
        email: "alice@x.com".to_string(),
        username: "alice".to_string(),
        password: "pw1".to_string(),
    };
    // No account holds the username or email yet: registration goes through.
    let hash = register(&None, &alice, TEST_COST).unwrap();
    assert_ne!(hash, "pw1");
    assert_eq!(password_matches("pw1", &hash), Some(true));
    let account = stored(1, "alice", "alice@x.com", hash, "user");

    // Registering again finds the account.
    let again = register(&Some(account.clone()), &alice, TEST_COST);
    assert_eq!(bad_request(again), "User already exists");

    // A wrong password is refused as bad credentials.
    match login(Some(account.clone()), "wrongpw") {
        Err(AppError::Forbidden { error }) => {
            assert_eq!(error, Some("Invalid credentials".to_string()))
        }
        other => panic!("unexpected {:?}", other),
    }
    // The right password logs in; the session then holds the id.
    let logged_in = login(Some(account.clone()), "pw1").unwrap();
    assert_eq!(logged_in.id, 1);
    let session = Some(logged_in.id.to_string());

    // The current user is shown without the password hash.
    let id = SessionService::check_logged_in(session).unwrap();
    assert_eq!(id, "1");
    let me = check_user(Some(account.clone())).unwrap().to_public();
    assert_eq!(me.id, 1);
    assert_eq!(me.username, "alice");
    assert_eq!(me.email, "alice@x.com");

    // After deleting the account the session is flushed.
    assert!(matches!(SessionService::check_logged_in(None), Err(AppError::NotLoggedIn)));
}

#[test]
fn unknown_login_is_refused() {
    match login(None, "pw1") {
        Err(AppError::Forbidden { error }) => {
            assert_eq!(error, Some("Invalid credentials".to_string()))
        }
        other => panic!("unexpected {:?}", other),
    }
}

#[test]
fn malformed_hash_is_internal_error() {
    let account = stored(1, "bob", "bob@x.com", "not a hash".to_string(), "user");
    assert_eq!(password_matches("pw", "not a hash"), None);
    assert!(matches!(login(Some(account), "pw"), Err(AppError::InternalError)));
}

#[test]
fn login_decision_table() {
    let account = stored(2, "bob", "bob@x.com", "h".to_string(), "user");
    assert_eq!(credentials_outcome(Some(account.clone()), Some(true)).unwrap().id, 2);
    assert!(matches!(
        credentials_outcome(Some(account.clone()), Some(false)),
        Err(AppError::Forbidden { .. })
    ));
    assert!(matches!(credentials_outcome(Some(account), None), Err(AppError::InternalError)));
    assert!(matches!(credentials_outcome(None, Some(true)), Err(AppError::Forbidden { .. })));
}

#[test]
fn registration_with_unusable_cost_fails() {
    let bob = RegisterCredentials {
        email: "bob@x.com".to_string(),
        username: "bob".to_string(),
        password: "pw".to_string(),
    };
    assert!(matches!(register(&None, &bob, 3), Err(AppError::InternalError)));
    assert!(matches!(register(&None, &bob, 32), Err(AppError::InternalError)));
    assert_eq!(HASH_COST, 12);
}

#[test]
fn password_change_rules() {
    let hash = register(
        &None,
        &RegisterCredentials {
            email: "c@x.com".to_string(),
            username: "carol".to_string(),
            password: "old-pw".to_string(),
        },
        TEST_COST,
    )
    .unwrap();
    let carol = stored(3, "carol", "c@x.com", hash, "user");

    let wrong_old = PasswordUpdatePayload {
        old_password: "nope".to_string(),
        new_password: "new-pw".to_string(),
    };
    assert_eq!(bad_request(update_password(&carol, &wrong_old, TEST_COST)), "Old password does not match");

    let same = PasswordUpdatePayload {
        old_password: "old-pw".to_string(),
        new_password: "old-pw".to_string(),
    };
    assert_eq!(
        bad_request(update_password(&carol, &same, TEST_COST)),
        "New password cannot match old password"
    );

    let good = PasswordUpdatePayload {
        old_password: "old-pw".to_string(),
        new_password: "new-pw".to_string(),
    };
    let new_hash = update_password(&carol, &good, TEST_COST).unwrap();
    assert_eq!(password_matches("new-pw", &new_hash), Some(true));
    assert_eq!(password_matches("old-pw", &new_hash), Some(false));
}

#[test]
fn password_change_decision_table() {
    assert!(check_password_change(Some(true), Some(false)).is_ok());
    assert!(matches!(check_password_change(None, Some(false)), Err(AppError::InternalError)));
    assert!(matches!(check_password_change(Some(true), None), Err(AppError::InternalError)));
    assert!(matches!(check_password_change(Some(false), Some(false)), Err(AppError::BadRequest { .. })));
    assert!(matches!(check_password_change(Some(true), Some(true)), Err(AppError::BadRequest { .. })));
}

#[test]
fn account_update_needs_exactly_one_field() {
    let both = AccountUpdatePayload { username: Some("a".to_string()), email: Some("b".to_string()) };
    assert_eq!(
        bad_request(account_update_field(both)),
        "Cannot update both username and email at the same time"
    );
    let neither = AccountUpdatePayload { username: None, email: None };
    assert_eq!(bad_request(account_update_field(neither)), "Must update either username or email");
    match account_update_field(AccountUpdatePayload { username: Some("neo".to_string()), email: None }) {
        Ok(AccountField::Username(u)) => assert_eq!(u, "neo"),
        other => panic!("unexpected {:?}", other),
    }
    match account_update_field(AccountUpdatePayload { username: None, email: Some("n@x.com".to_string()) }) {
        Ok(AccountField::Email(e)) => assert_eq!(e, "n@x.com"),
        other => panic!("unexpected {:?}", other),
    }
}

#[test]
fn account_update_value_in_use() {
    let field = AccountField::Username("neo".to_string());
    assert!(check_account_value_free(&field, false, false).is_ok());
    assert_eq!(bad_request(check_account_value_free(&field, true, false)), "Value already in use: username");
    let field = AccountField::Email("n@x.com".to_string());
    assert_eq!(bad_request(check_account_value_free(&field, false, true)), "Value already in use: email");
}

#[test]
fn admin_cannot_delete_self() {
    let admin = stored(1, "root", "root@x.com", "h".to_string(), "admin");
    match check_admin_delete(&admin, 1) {
        Err(AppError::Forbidden { error }) => {
            assert_eq!(error, Some("Cannot delete yourself".to_string()))
        }
        other => panic!("unexpected {:?}", other),
    }
    assert!(check_admin_delete(&admin, 2).is_ok());
    let target = stored(2, "bob", "bob@x.com", "h".to_string(), "user");
    assert_eq!(admin_target(Some(target)).unwrap().id, 2);
}

#[test]
fn admin_target_missing() {
    match admin_target(None) {
        Err(AppError::NotFound { error }) => assert_eq!(error, "User not found"),
        other => panic!("unexpected {:?}", other),
    }
}
