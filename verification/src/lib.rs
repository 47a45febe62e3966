//! Verified core of a client for the Boosty API: request paths, percent-encoding,
//! response-status classification, pagination decisions and response models.
pub mod api_client;
pub mod error;
pub mod keys;
pub mod model;
pub mod text;
