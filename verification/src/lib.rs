//! Cross-protocol authentication and validation gateway for a user-account
//! service: a signed, time-bounded credential codec, a fail-closed bearer-token
//! gate, a canonical error taxonomy with translations from RPC status codes to
//! transport responses, a declarative request-validation layer, and the
//! decision logic of the user service itself.

pub mod auth;
pub mod conf;
pub mod errors;
pub mod factory;
pub mod handlers;
pub mod identity;
pub mod jwt;
pub mod model;
pub mod principal;
pub mod resp;
pub mod service;
pub mod text;
pub mod valid;
