//! A minimal credential-management library: a credential store keyed by
//! username, and an account service offering registration, authentication
//! and password change, with the business rules stated as contracts.

pub mod service;
pub mod store;
