//! Values exchanged with HTTP clients, and the rules that derive generation
//! parameters from a request.
pub mod health;
pub mod model;
