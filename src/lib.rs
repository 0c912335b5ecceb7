use vstd::prelude::*;

pub mod authentication;
pub mod configuration;
pub mod errors;
pub mod idempotency;
pub mod metrics;
pub mod pagination;
pub mod routes;

verus! {

} // verus!
