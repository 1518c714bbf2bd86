//! # southesk
//!
//! A library for creating clients for the Montrose MCP API.
//!
//! This crate holds the decision logic of the client: the connection and
//! authorization flow, the credential records, the API request shapes, the
//! response checks and the parsing of OAuth redirects. The network, the
//! terminal and the file system are driven by the application around it.

pub mod error;
pub mod text;
pub mod types;
pub mod client;
pub mod auth_handler;
pub mod oauth_handler;
pub mod cred_store;
pub mod plain_cred_store;

pub use error::{ClientBuildError, ClientCallError, ClientConnectError};
