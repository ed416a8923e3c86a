//! The web API: its values, its cache and what the client asks of it.

pub mod answers;
pub mod api_models;
pub mod cache_names;
pub mod cached_client;
pub mod premium;
