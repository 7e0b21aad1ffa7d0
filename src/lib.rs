//! Account service core: a pending-change confirmation engine over an
//! account store, with identifier allocation, password hashing and
//! change-stamp anchored bearer tokens.
pub mod config;
pub mod email;
pub mod engine;
pub mod error;
pub mod ids;
pub mod laws;
pub mod model;
pub mod password;
pub mod random;
pub mod requests;
pub mod store;
pub mod token;
