//! Core of an authentication service: login, session refresh, and the
//! issuance of sign-up and password-reset tokens.
//!
//! External collaborators (user store, user-key store, token stores, email
//! sender, session context) are reached through narrow trait interfaces, so
//! that callers can substitute fakes; in-memory implementations of each
//! interface live in this crate.

pub mod error;
pub mod models;
pub mod json;
pub mod memory;
pub mod password;
pub mod random;
pub mod repository;
pub mod service;
pub mod text;
