//! Authorization, ownership and visibility rules of a profile backend.
//!
//! Every function here is a decision over plain values: the results of the
//! session store and of the relational store are handed in as arguments, and
//! the caller performs whatever the decision asks for.
//!
//! - [`auth`]: the session and the user and administrator gates.
//! - [`guard`]: ownership of records and the per-user record limit.
//! - [`visibility`]: which shape of a profile's records a viewer sees.
//! - [`records`]: the checks before a record is created or changed.
//! - [`account`]: registration, login, password and account changes.
//! - [`validation`]: the closed vocabularies and pronoun normalization.
//! - [`password`]: the bcrypt calls.
//! - [`models`], [`payloads`], [`error`]: the data.
pub mod account;
pub mod auth;
pub mod error;
pub mod guard;
pub mod models;
pub mod password;
pub mod payloads;
pub mod records;
pub mod text;
pub mod validation;
pub mod visibility;
