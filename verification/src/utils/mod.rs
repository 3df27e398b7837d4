//! Session tokens.

pub mod claims;
pub mod jwt;
pub mod wire;

pub use claims::{Claim, Envelope};
pub use jwt::{DecodingKey, EncodingKey};
