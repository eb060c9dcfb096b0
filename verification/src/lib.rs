//! Authentication core: password credentials, signed session tokens, an
//! in-memory user directory, the bearer-token guard and the session issuer
//! that ties them together.

pub mod auth_middleware;
pub mod directory;
pub mod errors;
pub mod jwt;
pub mod security;
pub mod session;
