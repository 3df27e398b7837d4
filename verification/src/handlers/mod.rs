//! What the server answers to a request.

pub mod auth;

pub use auth::{signin_handler, signup_handler};
