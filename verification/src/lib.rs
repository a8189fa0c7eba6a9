//! Core of a small event service: domain model with filter semantics,
//! hypermedia affordance building, and a uniform response envelope.
pub mod envelope;
pub mod model;
pub mod store;
