//! Credentials, password hashes, identifiers and the input rules.

pub mod hash;
pub mod helper;
pub mod ids;
pub mod jwt;
pub mod numbers;
pub mod pattern;
pub mod text;

pub use hash::{hash_password, verify_hash_password};
pub use jwt::{sign, verify, Claims, JwtPayload};
pub use pattern::is_valid_email;
