//! User records and the credentials that are checked against them.

pub mod user;

pub use user::{hash_password, verify_password, CreateUser, NewUser, SignUser, User};
