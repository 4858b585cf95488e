//! A request/response registry for prediction jobs, kept in the host's
//! key-value storage.
//!
//! A caller files a request (free-form input and a model name) under its own
//! account; anyone may later attach a response to an account; anyone may read
//! the response attached to an account. Requests and responses live in two
//! separate persistent maps keyed by account.

mod host;
pub mod laws;
pub mod model;
pub mod oracle;
pub mod storage;

pub use model::{Call, Registry};
pub use oracle::Oracle;
