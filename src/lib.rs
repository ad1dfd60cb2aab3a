//! A small layered user service: a validated domain model, a storage port
//! with an in-memory backend, an application service over any backend, and
//! the translation of domain failures into HTTP statuses and bodies.
pub mod api;
pub mod application;
pub mod errors;
pub mod in_memory_repo;
pub mod laws;
pub mod model;
pub mod ports;
