use vstd::prelude::*;
use crate::error::{AppError, AppErrorView, outcome};
use crate::models::UserModel;
use crate::text::text_equals;

verus! {

/// Reads of the session store: the session holds the logged-in user's id
/// under one key, or nothing.
#[derive(Debug, Clone, Copy)]
pub struct SessionService;

impl SessionService {
    /// The logged-in user's id, or `NotLoggedIn` when the session holds none.
    pub fn check_logged_in(session_user: Option<String>) -> (r: Result<String, AppError>)
        ensures
            session_user matches Some(id) ==> r == Ok::<String, AppError>(id),
            session_user is None ==> (r matches Err(e) && e@ == AppErrorView::NotLoggedIn),
    {
        match session_user {
            Some(id) => Ok(id),
            None => Err(AppError::NotLoggedIn),
        }
    }
}

/// The role name that grants administration.
pub open spec fn admin_role() -> Seq<char> {
    "admin"@
}

/// The outcome of looking up the session's user.
pub open spec fn user_outcome(found: Option<UserModel>) -> Result<UserModel, AppErrorView> {
    match found {
        Some(u) => Ok(u),
        None => Err(AppErrorView::UserNotFound),
    }
}

/// The outcome of the administrator check for a resolved user.
pub open spec fn admin_outcome(user: UserModel) -> Result<UserModel, AppErrorView> {
    if user.role@ == admin_role() {
        Ok(user)
    } else {
        Err(AppErrorView::Forbidden(None))
    }
}

/// The user that the session's id resolved to; `UserNotFound` when the id
/// names no account.
pub fn check_user(found: Option<UserModel>) -> (r: Result<UserModel, AppError>)
    ensures
        outcome(r) == user_outcome(found),
{
    match found {
        Some(u) => Ok(u),
        None => Err(AppError::UserNotFound),
    }
}

/// Admits the user exactly when their role is `admin`; anyone else is
/// `Forbidden`.
pub fn require_admin(user: UserModel) -> (r: Result<UserModel, AppError>)
    ensures
        outcome(r) == admin_outcome(user),
        r is Ok <==> user.role@ == admin_role(),
{
    if text_equals(user.role.as_str(), "admin") {
        Ok(user)
    } else {
        Err(AppError::Forbidden { error: None })
    }
}

/// The full administrator gate over the account that the session's id
/// resolved to.
pub fn check_admin(found: Option<UserModel>) -> (r: Result<UserModel, AppError>)
    ensures
        outcome(r) == match found {
            Some(u) => admin_outcome(u),
            None => Err(AppErrorView::UserNotFound),
        },
{
    let user = check_user(found)?;
    require_admin(user)
}

/// The outcome of the user gate for a request whose session holds
/// `session_user` and whose lookup of that id found `found`.
pub open spec fn gate_user_outcome(session_user: Option<String>, found: Option<UserModel>) -> Result<
    UserModel,
    AppErrorView,
> {
    match session_user {
        None => Err(AppErrorView::NotLoggedIn),
        Some(_) => user_outcome(found),
    }
}

/// The outcome of the administrator gate for the same request.
pub open spec fn gate_admin_outcome(session_user: Option<String>, found: Option<UserModel>) -> Result<
    UserModel,
    AppErrorView,
> {
    match gate_user_outcome(session_user, found) {
        Ok(u) => admin_outcome(u),
        Err(e) => Err(e),
    }
}

/// The whole user gate: `NotLoggedIn` without a session id, `UserNotFound`
/// when the lookup of the session's id (`found`, only read when there is an
/// id) found no account, and that account otherwise.
pub fn require_user(session_user: &Option<String>, found: Option<UserModel>) -> (r: Result<
    UserModel,
    AppError,
>)
    ensures
        outcome(r) == gate_user_outcome(*session_user, found),
{
    match session_user {
        None => Err(AppError::NotLoggedIn),
        Some(_) => check_user(found),
    }
}

/// The whole administrator gate: the user gate, then the role check.
pub fn require_admin_user(session_user: &Option<String>, found: Option<UserModel>) -> (r: Result<
    UserModel,
    AppError,
>)
    ensures
        outcome(r) == gate_admin_outcome(*session_user, found),
{
    let user = require_user(session_user, found)?;
    require_admin(user)
}

/// The optional-viewer gate: no viewer without a session id, otherwise the
/// account that the session's id names, if any.
pub fn optional_user(session_user: &Option<String>, found: Option<UserModel>) -> (r: Option<UserModel>)
    ensures
        session_user is None ==> r is None,
        session_user is Some ==> r == found,
{
    match session_user {
        None => None,
        Some(_) => found,
    }
}

} // verus!
