//! The browser client's side: what it asks for, and what it makes of the
//! answers.

pub mod api;
pub mod auth;
pub mod posts;
pub mod routes;
