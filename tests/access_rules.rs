use ideno::auth::{
    check_admin, check_user, optional_user, require_admin, require_admin_user, require_user,
    SessionService,
};
use ideno::error::AppError;
use ideno::guard::{check_record_found, check_record_limit, Category, RECORD_LIMIT};
use ideno::models::{ContactInformationModel, UserModel};
use ideno::payloads::{AddContactInformationPayload, UpdateContactInformationPayload};
use ideno::records::{
    check_contact_information_update, check_new_contact_information,
    get_existing_contact_information,
};

fn user(id: i32, role: &str) -> UserModel {
    UserModel {
        id,
        username: format!("user{}", id),
        email: format!("user{}@x.com", id),
        password: "$2b$04$notarealhashnotarealhashnotarealhashnotarealhashnotar".to_string(),
        role: role.to_string(),
        created_at: "2024-01-01 00:00:00".to_string(),
    }
}

fn contact(id: i32, user_id: i32, kind: &str, value: &str) -> ContactInformationModel {
    ContactInformationModel {
        id,
        user_id,
        type_field: kind.to_string(),
        value: value.to_string(),
        created_at: "2024-01-01 00:00:00".to_string(),
    }
}

fn add(kind: &str, value: &str) -> AddContactInformationPayload {
    AddContactInformationPayload { contact_type: kind.to_string(), value: value.to_string() }
}

const CATEGORIES: [Category; 4] = [
    Category::Certification,
    Category::Education,
    Category::Experience,
    Category::ContactInformation,
];

#[test]
fn session_without_user_is_not_logged_in() {
    assert!(matches!(SessionService::check_logged_in(None), Err(AppError::NotLoggedIn)));
    assert_eq!(SessionService::check_logged_in(Some("7".to_string())).unwrap(), "7");
}

#[test]
fn session_user_missing_from_store() {
    assert!(matches!(check_user(None), Err(AppError::UserNotFound)));
    assert_eq!(check_user(Some(user(3, "user"))).unwrap().id, 3);
    assert!(matches!(check_admin(None), Err(AppError::UserNotFound)));
}

#[test]
fn admin_gate_admits_only_admin_role() {
    assert_eq!(require_admin(user(1, "admin")).unwrap().id, 1);
    for role in ["user", "Admin", "admin ", "", "superuser"] {
        match require_admin(user(2, role)) {
            Err(AppError::Forbidden { error }) => assert_eq!(error, None),
            other => panic!("role {:?} gave {:?}", role, other),
        }
    }
    assert_eq!(check_admin(Some(user(5, "admin"))).unwrap().id, 5);
    assert!(matches!(check_admin(Some(user(6, "user"))), Err(AppError::Forbidden { .. })));
}

#[test]
fn foreign_or_missing_record_is_not_found() {
    // The ownership count scoped to another user's id (or to a missing id) is zero.
    let expected = [
        "Certification not found",
        "Education not found",
        "Experience not found",
        "Contact information not found",
    ];
    for (category, text) in CATEGORIES.iter().zip(expected) {
        match check_record_found(0, *category) {
            Err(AppError::NotFound { error }) => assert_eq!(error, text),
            other => panic!("unexpected {:?}", other),
        }
        assert!(check_record_found(1, *category).is_ok());
    }
}

#[test]
fn fifty_first_record_is_a_conflict() {
    let expected = [
        "Certification limit reached",
        "Education limit reached",
        "Experiences limit reached",
        "Contact information limit reached",
    ];
    assert_eq!(RECORD_LIMIT, 50);
    for (category, text) in CATEGORIES.iter().zip(expected) {
        match check_record_limit(50, *category) {
            Err(AppError::DataConflict { error }) => assert_eq!(error, text),
            other => panic!("unexpected {:?}", other),
        }
        assert!(matches!(check_record_limit(51, *category), Err(AppError::DataConflict { .. })));
        assert!(check_record_limit(49, *category).is_ok());
        assert!(check_record_limit(0, *category).is_ok());
    }
}

#[test]
fn duplicate_contact_is_a_conflict() {
    let rows = vec![contact(1, 7, "email", "a@x.com"), contact(2, 7, "github", "alice")];
    match check_new_contact_information(7, 2, &rows, &add("email", "a@x.com")) {
        Err(AppError::DataConflict { error }) => {
            assert_eq!(error, "Contact information already exists")
        }
        other => panic!("unexpected {:?}", other),
    }
}

#[test]
fn same_contact_type_with_new_value_is_accepted() {
    let rows = vec![contact(1, 7, "email", "a@x.com")];
    assert!(check_new_contact_information(7, 1, &rows, &add("email", "b@x.com")).is_ok());
    // Another user's identical entry does not count.
    let others = vec![contact(3, 8, "email", "a@x.com")];
    assert!(check_new_contact_information(7, 0, &others, &add("email", "a@x.com")).is_ok());
}

#[test]
fn contact_creation_checks_limit_then_kind() {
    let rows: Vec<ContactInformationModel> = Vec::new();
    assert!(matches!(
        check_new_contact_information(7, 50, &rows, &add("fax", "1")),
        Err(AppError::DataConflict { .. })
    ));
    match check_new_contact_information(7, 10, &rows, &add("fax", "1")) {
        Err(AppError::BadRequest { error }) => {
            assert_eq!(error, Some("Invalid contact type".to_string()))
        }
        other => panic!("unexpected {:?}", other),
    }
}

#[test]
fn existing_contact_lookup() {
    let rows = vec![contact(1, 7, "email", "a@x.com"), contact(2, 7, "phone", "123")];
    assert!(get_existing_contact_information(&rows, 7, &add("phone", "123")));
    assert!(!get_existing_contact_information(&rows, 7, &add("phone", "1234")));
    assert!(!get_existing_contact_information(&rows, 8, &add("phone", "123")));
    assert!(!get_existing_contact_information(&rows, 7, &add("email", "123")));
}

#[test]
fn contact_update_checks_owner_then_kind() {
    let payload = UpdateContactInformationPayload {
        contact_type: "fax".to_string(),
        value: "1".to_string(),
    };
    assert!(matches!(
        check_contact_information_update(0, &payload),
        Err(AppError::NotFound { .. })
    ));
    assert!(matches!(
        check_contact_information_update(1, &payload),
        Err(AppError::BadRequest { .. })
    ));
    let good = UpdateContactInformationPayload {
        contact_type: "website".to_string(),
        value: "https://x.com".to_string(),
    };
    assert!(check_contact_information_update(1, &good).is_ok());
}

#[test]
fn own_account_view_hides_hash_and_plain_role() {
    let plain = user(4, "user").to_auth_view();
    assert_eq!(plain.id, 4);
    assert_eq!(plain.username, "user4");
    assert_eq!(plain.email, "user4@x.com");
    assert_eq!(plain.role, None);
    let admin = user(5, "admin").to_auth_view();
    assert_eq!(admin.role, Some("admin".to_string()));
    let public = user(6, "admin").to_public();
    assert_eq!(public.username, "user6");
    assert_eq!(public.created_at, "2024-01-01 00:00:00");
}

#[test]
fn whole_gate_decisions() {
    let id = Some("3".to_string());
    assert!(matches!(require_user(&None, None), Err(AppError::NotLoggedIn)));
    assert!(matches!(require_user(&id, None), Err(AppError::UserNotFound)));
    assert_eq!(require_user(&id, Some(user(3, "user"))).unwrap().id, 3);
    assert!(matches!(require_admin_user(&None, Some(user(3, "admin"))), Err(AppError::NotLoggedIn)));
    assert!(matches!(require_admin_user(&id, None), Err(AppError::UserNotFound)));
    assert!(matches!(require_admin_user(&id, Some(user(3, "user"))), Err(AppError::Forbidden { .. })));
    assert_eq!(require_admin_user(&id, Some(user(3, "admin"))).unwrap().id, 3);
    assert!(optional_user(&None, Some(user(3, "user"))).is_none());
    assert!(optional_user(&id, None).is_none());
    assert_eq!(optional_user(&id, Some(user(3, "user"))).unwrap().id, 3);
}
