//! What the service answers to each request, given the store.

/// The bodies of requests and answers.
pub mod api_models;
/// The bearer of a request.
pub mod auth;
/// The health check.
pub mod health;
/// Transfers: create, get, list.
pub mod transaction;
/// Accounts: sign-up, login, profile.
pub mod user;
