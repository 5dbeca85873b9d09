//! Verified core of a Matrix client: the error taxonomy, the authenticated
//! request dispatcher and the account store.
pub mod error;
pub mod json;
pub mod http_client;
pub mod store;

