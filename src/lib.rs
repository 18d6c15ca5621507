//! Client library for a personal banking REST API: OAuth2 client-credentials
//! token requests, authenticated request plans for the account, transaction,
//! transfer and customer endpoints, and checks of the responses that come back.
pub mod error;
pub mod credentials;
pub mod entities;
pub mod http;
pub mod authorize;
pub mod dates;
pub mod args;
pub mod transfer;
pub mod decimal;
pub mod bank;
pub mod customers;
pub mod interactive;
