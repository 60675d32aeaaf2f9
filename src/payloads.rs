use vstd::prelude::*;

verus! {

/// Login form: `username` may hold either the username or the email.
#[derive(Debug, Clone)]
pub struct LoginCredentials {
    pub username: String,
    pub password: String,
}

/// Registration form.
#[derive(Debug, Clone)]
pub struct RegisterCredentials {
    pub email: String,
    pub username: String,
    pub password: String,
}

/// Change of the account's username or email; exactly one must be given.
#[derive(Debug, Clone)]
pub struct AccountUpdatePayload {
    pub username: Option<String>,
    pub email: Option<String>,
}

/// Change of password, proved by the current one.
#[derive(Debug, Clone)]
pub struct PasswordUpdatePayload {
    pub old_password: String,
    pub new_password: String,
}

/// New personal fields of the caller's profile.
#[derive(Debug, Clone)]
pub struct ProfileUpdatePayload {
    pub first_name: Option<String>,
    pub last_name: Option<String>,
    pub pronouns: Option<String>,
    pub headline: Option<String>,
    pub country: Option<String>,
    pub city: Option<String>,
    pub bio: Option<String>,
}

/// A new certification.
#[derive(Debug, Clone)]
pub struct AddCertificationPayload {
    pub name: String,
    pub organization: String,
    pub issue_date: Option<String>,
    pub expiration_date: Option<String>,
    pub credential_id: Option<String>,
    pub credential_url: Option<String>,
}

/// New fields of a certification.
#[derive(Debug, Clone)]
pub struct UpdateCertificationPayload {
    pub name: String,
    pub organization: String,
    pub issue_date: Option<String>,
    pub expiration_date: Option<String>,
    pub credential_id: Option<String>,
    pub credential_url: Option<String>,
}

/// A new contact entry.
#[derive(Debug, Clone)]
pub struct AddContactInformationPayload {
    pub contact_type: String,
    pub value: String,
}

/// New fields of a contact entry.
#[derive(Debug, Clone)]
pub struct UpdateContactInformationPayload {
    pub contact_type: String,
    pub value: String,
}

/// A new education entry.
#[derive(Debug, Clone)]
pub struct AddEducationPayload {
    pub school: String,
    pub degree: Option<String>,
    pub field: Option<String>,
    pub start_date: Option<String>,
    pub end_date: Option<String>,
}

/// New fields of an education entry.
#[derive(Debug, Clone)]
pub struct UpdateEducationPayload {
    pub school: String,
    pub degree: Option<String>,
    pub field: Option<String>,
    pub start_date: Option<String>,
    pub end_date: Option<String>,
}

/// A new work experience.
#[derive(Debug, Clone)]
pub struct AddExperiencePayload {
    pub company: String,
    pub title: String,
    pub start_date: Option<String>,
    pub end_date: Option<String>,
    pub exp_type: Option<String>,
    pub description: Option<String>,
}

/// New fields of a work experience.
#[derive(Debug, Clone)]
pub struct UpdateExperiencePayload {
    pub company: String,
    pub title: String,
    pub start_date: Option<String>,
    pub end_date: Option<String>,
    pub exp_type: Option<String>,
    pub description: Option<String>,
}

/// An administrator's full rewrite of an account, role included.
#[derive(Debug, Clone)]
pub struct UpdateUserRequest {
    pub username: String,
    pub email: String,
    pub role: String,
}

/// A request to delete the account with this id.
#[derive(Debug, Clone)]
pub struct DeleteUserRequest {
    pub id: i32,
}

} // verus!
