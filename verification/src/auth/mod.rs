//! Request-time authentication: the guard in front of every protected
//! route, the refresh flow, and the issuing of sessions.

pub mod handlers;
pub mod laws;
pub mod middleware;
pub mod refresh;
