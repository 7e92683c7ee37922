//! Session and authentication core of a small blog service.

pub mod auth;
pub mod clock;
pub mod codec;
pub mod common;
pub mod config;
pub mod db;
pub mod errors;
pub mod frontend;
pub mod ident;
pub mod pattern;
pub mod request;
pub mod schema;
