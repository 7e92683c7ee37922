//! The values that pass through the service: tokens, forms, users, posts.

pub mod form;
pub mod jwt;
pub mod post;
pub mod user;
