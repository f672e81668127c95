//! A credential issuance and validation library: validated credential value
//! types, a password-hashing subsystem, a signed session-token subsystem,
//! pluggable credential stores, and the authentication protocol built on them.

pub mod auth;
pub mod data_stores;
pub mod email;
pub mod email_client;
pub mod error;
pub mod hashing;
pub mod hashmap_two_fa_code_store;
pub mod hashmap_user_store;
pub mod hashset_banned_token_store;
pub mod login;
pub mod logout;
pub mod password;
pub mod signup;
pub mod text;
pub mod user;
pub mod verify_2fa;
pub mod verify_token;
