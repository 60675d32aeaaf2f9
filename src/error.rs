use vstd::prelude::*;
use crate::text::{decimal_text, int_text};

verus! {

/// The errors a request can end with; each maps to one HTTP status.
#[derive(Debug, Clone)]
pub enum AppError {
    StateNotFound,
    InternalError,
    UserNotFound,
    NotLoggedIn,
    BadRequest { error: Option<String> },
    Forbidden { error: Option<String> },
    NotAllowed { error: String },
    DataConflict { error: String },
    NotFound { error: String },
}

/// The mathematical value of an [`AppError`]: its variant and its message.
pub enum AppErrorView {
    StateNotFound,
    InternalError,
    UserNotFound,
    NotLoggedIn,
    BadRequest(Option<Seq<char>>),
    Forbidden(Option<Seq<char>>),
    NotAllowed(Seq<char>),
    DataConflict(Seq<char>),
    NotFound(Seq<char>),
}

/// The characters of an optional message.
pub open spec fn opt_text(o: Option<String>) -> Option<Seq<char>> {
    match o {
        Some(s) => Some(s@),
        None => None,
    }
}

impl View for AppError {
    type V = AppErrorView;

    open spec fn view(&self) -> AppErrorView {
        match self {
            AppError::StateNotFound => AppErrorView::StateNotFound,
            AppError::InternalError => AppErrorView::InternalError,
            AppError::UserNotFound => AppErrorView::UserNotFound,
            AppError::NotLoggedIn => AppErrorView::NotLoggedIn,
            AppError::BadRequest { error } => AppErrorView::BadRequest(opt_text(*error)),
            AppError::Forbidden { error } => AppErrorView::Forbidden(opt_text(*error)),
            AppError::NotAllowed { error } => AppErrorView::NotAllowed(error@),
            AppError::DataConflict { error } => AppErrorView::DataConflict(error@),
            AppError::NotFound { error } => AppErrorView::NotFound(error@),
        }
    }
}

/// The HTTP status code of each error variant.
pub open spec fn error_status(e: AppErrorView) -> u16 {
    match e {
        AppErrorView::StateNotFound => 401,
        AppErrorView::InternalError => 500,
        AppErrorView::UserNotFound => 404,
        AppErrorView::NotLoggedIn => 401,
        AppErrorView::BadRequest(_) => 400,
        AppErrorView::Forbidden(_) => 403,
        AppErrorView::NotAllowed(_) => 403,
        AppErrorView::DataConflict(_) => 409,
        AppErrorView::NotFound(_) => 404,
    }
}

/// The plain-text body of each error variant.
pub open spec fn error_body(e: AppErrorView) -> Seq<char> {
    match e {
        AppErrorView::StateNotFound => Seq::empty(),
        AppErrorView::InternalError => "Internal server error"@,
        AppErrorView::UserNotFound => "User not found"@,
        AppErrorView::NotLoggedIn => "Not logged in"@,
        AppErrorView::BadRequest(m) => match m {
            Some(m) => m,
            None => Seq::empty(),
        },
        AppErrorView::Forbidden(m) => match m {
            Some(m) => m,
            None => Seq::empty(),
        },
        AppErrorView::NotAllowed(m) => m,
        AppErrorView::DataConflict(m) => m,
        AppErrorView::NotFound(m) => m,
    }
}

/// An owned copy of an optional string, equal to the original.
pub fn copy_text(o: &Option<String>) -> (r: Option<String>)
    ensures
        r == *o,
{
    match o {
        Some(s) => Some(s.clone()),
        None => None,
    }
}

impl AppError {
    /// The HTTP status code this error is answered with.
    pub fn status_code(&self) -> (r: u16)
        ensures
            r == error_status(self@),
    {
        match self {
            AppError::StateNotFound => 401,
            AppError::InternalError => 500,
            AppError::UserNotFound => 404,
            AppError::NotLoggedIn => 401,
            AppError::BadRequest { .. } => 400,
            AppError::Forbidden { .. } => 403,
            AppError::NotAllowed { .. } => 403,
            AppError::DataConflict { .. } => 409,
            AppError::NotFound { .. } => 404,
        }
    }

    /// The plain-text body this error is answered with.
    pub fn body(&self) -> (r: String)
        ensures
            r@ == error_body(self@),
    {
        match self {
            AppError::StateNotFound => String::new(),
            AppError::InternalError => "Internal server error".to_string(),
            AppError::UserNotFound => "User not found".to_string(),
            AppError::NotLoggedIn => "Not logged in".to_string(),
            AppError::BadRequest { error } | AppError::Forbidden { error } => match error {
                Some(m) => m.clone(),
                None => String::new(),
            },
            AppError::NotAllowed { error } => error.clone(),
            AppError::DataConflict { error } => error.clone(),
            AppError::NotFound { error } => error.clone(),
        }
    }
}

/// The successful outcomes of a request.
#[derive(Debug, Clone)]
pub enum AppSuccess {
    OK { data: Option<String> },
    CREATED { id: Option<i64> },
    DELETED,
    UPDATED,
}

/// The HTTP status code of each success variant.
pub open spec fn success_status(s: AppSuccess) -> u16 {
    match s {
        AppSuccess::OK { .. } => 200,
        AppSuccess::CREATED { .. } => 201,
        AppSuccess::DELETED => 202,
        AppSuccess::UPDATED => 202,
    }
}

/// The plain-text body of each success variant: the data of `OK`, the
/// decimal id of `CREATED`, and nothing otherwise.
pub open spec fn success_body(s: AppSuccess) -> Seq<char> {
    match s {
        AppSuccess::OK { data } => match data {
            Some(d) => d@,
            None => Seq::empty(),
        },
        AppSuccess::CREATED { id } => match id {
            Some(i) => int_text(i as int),
            None => Seq::empty(),
        },
        AppSuccess::DELETED => Seq::empty(),
        AppSuccess::UPDATED => Seq::empty(),
    }
}

impl AppSuccess {
    /// The plain-text body this outcome is answered with.
    pub fn body(&self) -> (r: String)
        ensures
            r@ == success_body(*self),
    {
        match self {
            AppSuccess::OK { data } => match data {
                Some(d) => d.clone(),
                None => String::new(),
            },
            AppSuccess::CREATED { id } => match id {
                Some(i) => decimal_text(*i),
                None => String::new(),
            },
            AppSuccess::DELETED => String::new(),
            AppSuccess::UPDATED => String::new(),
        }
    }

    /// The HTTP status code this outcome is answered with.
    pub fn status_code(&self) -> (r: u16)
        ensures
            r == success_status(*self),
    {
        match self {
            AppSuccess::OK { .. } => 200,
            AppSuccess::CREATED { .. } => 201,
            AppSuccess::DELETED => 202,
            AppSuccess::UPDATED => 202,
        }
    }
}

/// A result with its error replaced by the error's value.
pub open spec fn outcome<T>(r: Result<T, AppError>) -> Result<T, AppErrorView> {
    match r {
        Ok(v) => Ok(v),
        Err(e) => Err(e@),
    }
}

} // verus!
