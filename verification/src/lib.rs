//! A small vehicle-management library: a validated vehicle entity, an
//! in-memory repository keyed by generated identifiers, and a payload
//! decoder that turns raw input into a validated entity or a single
//! structured rejection.

pub mod laws;
pub mod repo;
pub mod telemetry;
pub mod validator;
pub mod vehicle;

use vstd::prelude::*;

verus! {

/// Shared application state handed to every request handler; it carries
/// the repository implementation the handlers operate on.
#[derive(Clone)]
pub struct AppState<T> {
    pub vehicle_repo: T,
}

/// Compatibility shim kept from an earlier telemetry setup; it performs
/// no work and always succeeds.
pub fn init_trace() -> (r: Result<(), ()>)
    ensures
        r is Ok,
{
    Ok(())
}

} // verus!
