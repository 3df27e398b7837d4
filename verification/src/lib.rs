//! Credential and session-token core of a small chat backend.
//!
//! Passwords are stored as salted Argon2 digests, sessions are Ed25519-signed
//! tokens, and the sign-up and sign-in decisions are functions of plain values
//! so that the surrounding server only has to talk to the user store.

pub mod config;
pub mod error;
pub mod handlers;
pub mod models;
pub mod utils;

pub use config::{AppConfig, AuthConfig, AuthKeys, ConfigSource, ServerConfig};
pub use error::{AppError, RejectReason, StoreError};
pub use handlers::{signin_handler, signup_handler};
pub use models::{hash_password, verify_password, CreateUser, NewUser, SignUser, User};
pub use utils::{Claim, DecodingKey, EncodingKey, Envelope};
