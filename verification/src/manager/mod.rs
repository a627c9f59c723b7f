//! The manager gateway's binary protocol.

pub mod api_client;
pub mod callback;
pub mod models;
pub mod registry;
pub mod requests;
pub mod serialization;
