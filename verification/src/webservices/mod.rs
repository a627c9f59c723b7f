//! The web service client for applications that bring their own
//! configuration.

pub mod api_client;
pub mod register_user_flow;
