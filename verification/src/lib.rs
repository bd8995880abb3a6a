//! An authentication engine: salted password hashing with constant-time
//! verification, signed short-lived access tokens, a single-live refresh
//! token per identity, and the register / login / refresh / logout
//! operations composed from them — with the behaviour of each part stated
//! in its contract and checked by the verifier.
pub mod auth_utils;
pub mod config;
pub mod controllers;
pub mod errors;
pub mod friendly_id;
pub mod middleware;
pub mod models;
pub mod password;
pub mod store;
pub mod strutil;
pub mod tokens;
pub mod uuid_text;
