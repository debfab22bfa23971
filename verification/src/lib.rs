//! A verified core for a small user-account service: a model of the backing
//! user table, the data-access operations against it, and the
//! request-handling layer that wraps every outcome in a uniform response
//! envelope.

pub mod api;
mod ext;
pub mod laws;
pub mod model;
pub mod store;
