use vstd::prelude::*;
use crate::error::{AppError, AppErrorView, outcome};
use crate::models::UserModel;
use crate::password::{bcrypt_verifies, hash_password, password_matches};
use crate::payloads::{AccountUpdatePayload, PasswordUpdatePayload, RegisterCredentials};

verus! {

/// The outcome of a registration, given whether the username or the email is
/// already taken, before the password is hashed.
pub open spec fn register_outcome(existing: Option<UserModel>) -> Result<(), AppErrorView> {
    match existing {
        Some(_) => Err(AppErrorView::BadRequest(Some("User already exists"@))),
        None => Ok(()),
    }
}

/// Registration: refused when `existing` (the account found with the same
/// username or email) is present; otherwise a bcrypt hash of the password
/// that verifies it, or `InternalError` where hashing failed.
pub fn register(existing: &Option<UserModel>, payload: &RegisterCredentials, cost: u32) -> (r: Result<
    String,
    AppError,
>)
    ensures
        existing is Some ==> outcome(r) == Err::<String, AppErrorView>(
            AppErrorView::BadRequest(Some("User already exists"@)),
        ),
        existing is None ==> (r is Ok || outcome(r) == Err::<String, AppErrorView>(
            AppErrorView::InternalError,
        )),
        existing is None && (cost < 4 || cost > 31) ==> outcome(r) == Err::<String, AppErrorView>(
            AppErrorView::InternalError,
        ),
        r matches Ok(h) ==> bcrypt_verifies(payload.password@, h@) == Some(true),
{
    if existing.is_some() {
        return Err(AppError::BadRequest { error: Some("User already exists".to_string()) });
    }
    match hash_password(payload.password.as_str(), cost) {
        Ok(hash) => Ok(hash),
        Err(_) => Err(AppError::InternalError),
    }
}

/// The outcome of a login from the account found by username or email and
/// the answer of the password check against its hash.
pub open spec fn login_outcome(found: Option<UserModel>, verified: Option<bool>) -> Result<
    UserModel,
    AppErrorView,
> {
    match found {
        None => Err(AppErrorView::Forbidden(Some("Invalid credentials"@))),
        Some(u) => match verified {
            None => Err(AppErrorView::InternalError),
            Some(false) => Err(AppErrorView::Forbidden(Some("Invalid credentials"@))),
            Some(true) => Ok(u),
        },
    }
}

/// Decides a login once the password has been checked: an unknown account and
/// a wrong password are refused alike.
pub fn credentials_outcome(found: Option<UserModel>, verified: Option<bool>) -> (r: Result<
    UserModel,
    AppError,
>)
    ensures
        outcome(r) == login_outcome(found, verified),
{
    match found {
        None => Err(AppError::Forbidden { error: Some("Invalid credentials".to_string()) }),
        Some(u) => match verified {
            None => Err(AppError::InternalError),
            Some(false) => Err(AppError::Forbidden { error: Some("Invalid credentials".to_string()) }),
            Some(true) => Ok(u),
        },
    }
}

/// Login: checks `password` against the hash of `found`, the account whose
/// username or email was given.
pub fn login(found: Option<UserModel>, password: &str) -> (r: Result<UserModel, AppError>)
    ensures
        outcome(r) == login_outcome(
            found,
            match found {
                Some(u) => bcrypt_verifies(password@, u.password@),
                None => None,
            },
        ),
{
    let verified = match &found {
        Some(u) => password_matches(password, u.password.as_str()),
        None => None,
    };
    credentials_outcome(found, verified)
}

/// The outcome of a password change from the check of the old password and
/// the check of the new one against the stored hash.
pub open spec fn password_change_outcome(old_matches: Option<bool>, new_matches: Option<bool>) -> Result<
    (),
    AppErrorView,
> {
    match old_matches {
        None => Err(AppErrorView::InternalError),
        Some(false) => Err(AppErrorView::BadRequest(Some("Old password does not match"@))),
        Some(true) => match new_matches {
            None => Err(AppErrorView::InternalError),
            Some(true) => Err(AppErrorView::BadRequest(Some("New password cannot match old password"@))),
            Some(false) => Ok(()),
        },
    }
}

/// Decides a password change once both passwords have been checked.
pub fn check_password_change(old_matches: Option<bool>, new_matches: Option<bool>) -> (r: Result<
    (),
    AppError,
>)
    ensures
        outcome(r) == password_change_outcome(old_matches, new_matches),
{
    match old_matches {
        None => Err(AppError::InternalError),
        Some(false) => Err(AppError::BadRequest { error: Some("Old password does not match".to_string()) }),
        Some(true) => match new_matches {
            None => Err(AppError::InternalError),
            Some(true) => Err(
                AppError::BadRequest { error: Some("New password cannot match old password".to_string()) },
            ),
            Some(false) => Ok(()),
        },
    }
}

/// Password change: the old password must match the stored hash and the new
/// one must not; then a bcrypt hash that verifies the new password, or
/// `InternalError` where hashing failed.
pub fn update_password(user: &UserModel, payload: &PasswordUpdatePayload, cost: u32) -> (r: Result<
    String,
    AppError,
>)
    ensures
        ({
            let decided = password_change_outcome(
                bcrypt_verifies(payload.old_password@, user.password@),
                bcrypt_verifies(payload.new_password@, user.password@),
            );
            &&& decided matches Err(e) ==> outcome(r) == Err::<String, AppErrorView>(e)
            &&& decided is Ok ==> (r is Ok || outcome(r) == Err::<String, AppErrorView>(
                AppErrorView::InternalError,
            ))
        }),
        r matches Ok(h) ==> bcrypt_verifies(payload.new_password@, h@) == Some(true),
{
    let old_matches = password_matches(payload.old_password.as_str(), user.password.as_str());
    let new_matches = if old_matches == Some(true) {
        password_matches(payload.new_password.as_str(), user.password.as_str())
    } else {
        None
    };
    proof {
        if old_matches == Some(true) {
            assert(new_matches == bcrypt_verifies(payload.new_password@, user.password@));
        }
    }
    check_password_change(old_matches, new_matches)?;
    match hash_password(payload.new_password.as_str(), cost) {
        Ok(hash) => Ok(hash),
        Err(_) => Err(AppError::InternalError),
    }
}

/// The one account column an update changes, with its new value.
#[derive(Debug, Clone)]
pub enum AccountField {
    Username(String),
    Email(String),
}

/// The column an account update names: exactly one of username and email.
pub open spec fn account_field_outcome(payload: AccountUpdatePayload) -> Result<
    AccountField,
    AppErrorView,
> {
    match (payload.username, payload.email) {
        (Some(_), Some(_)) => Err(
            AppErrorView::BadRequest(Some("Cannot update both username and email at the same time"@)),
        ),
        (None, None) => Err(AppErrorView::BadRequest(Some("Must update either username or email"@))),
        (Some(u), None) => Ok(AccountField::Username(u)),
        (None, Some(e)) => Ok(AccountField::Email(e)),
    }
}

/// Picks the column an account update changes.
pub fn account_update_field(payload: AccountUpdatePayload) -> (r: Result<AccountField, AppError>)
    ensures
        outcome(r) == account_field_outcome(payload),
{
    match (payload.username, payload.email) {
        (Some(_), Some(_)) => Err(
            AppError::BadRequest {
                error: Some("Cannot update both username and email at the same time".to_string()),
            },
        ),
        (None, None) => Err(
            AppError::BadRequest { error: Some("Must update either username or email".to_string()) },
        ),
        (Some(u), None) => Ok(AccountField::Username(u)),
        (None, Some(e)) => Ok(AccountField::Email(e)),
    }
}

/// The message of a refused update whose new value is already in use.
pub open spec fn in_use_text(field: AccountField) -> Seq<char> {
    match field {
        AccountField::Username(_) => "Value already in use: username"@,
        AccountField::Email(_) => "Value already in use: email"@,
    }
}

/// Refuses an account update whose new value is already some account's
/// username or email.
pub fn check_account_value_free(field: &AccountField, username_taken: bool, email_taken: bool) -> (r:
    Result<(), AppError>)
    ensures
        !username_taken && !email_taken ==> r is Ok,
        username_taken || email_taken ==> outcome(r) == Err::<(), AppErrorView>(
            AppErrorView::BadRequest(Some(in_use_text(*field))),
        ),
{
    if username_taken || email_taken {
        let message = match field {
            AccountField::Username(_) => "Value already in use: username".to_string(),
            AccountField::Email(_) => "Value already in use: email".to_string(),
        };
        Err(AppError::BadRequest { error: Some(message) })
    } else {
        Ok(())
    }
}

/// The account an administrator addresses by id, or `NotFound`.
pub fn admin_target(found: Option<UserModel>) -> (r: Result<UserModel, AppError>)
    ensures
        found matches Some(u) ==> r == Ok::<UserModel, AppError>(u),
        found is None ==> outcome(r) == Err::<UserModel, AppErrorView>(
            AppErrorView::NotFound("User not found"@),
        ),
{
    match found {
        Some(u) => Ok(u),
        None => Err(AppError::NotFound { error: "User not found".to_string() }),
    }
}

/// An administrator may delete any account but their own.
pub fn check_admin_delete(admin: &UserModel, target_id: i32) -> (r: Result<(), AppError>)
    ensures
        target_id != admin.id ==> r is Ok,
        target_id == admin.id ==> outcome(r) == Err::<(), AppErrorView>(
            AppErrorView::Forbidden(Some("Cannot delete yourself"@)),
        ),
{
    if target_id == admin.id {
        Err(AppError::Forbidden { error: Some("Cannot delete yourself".to_string()) })
    } else {
        Ok(())
    }
}

} // verus!
