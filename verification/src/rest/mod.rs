//! The request model of the account-management web service.

pub mod creds;
pub mod endpoints;
pub mod errors;
pub mod models;
pub mod rest_client;
pub mod register_user_flow;
