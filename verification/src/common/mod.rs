//! What the service and its browser client exchange.

pub mod errors;
pub mod forms;
pub mod posts;
pub mod user;

use vstd::prelude::*;

verus! {

/// The body of an answer that carries nothing but its outcome.
#[derive(Debug, Clone, PartialEq, Eq)]
pub struct ApiResponse {
    pub status: String,
}

} // verus!
