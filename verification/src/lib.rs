//! Discoverable web APIs described by TOML specifications: the verified core.
//!
//! This crate holds the logic of the framework: the API specification model and its parser,
//! route and parameter handling, content negotiation, module dispatch and versioning, status
//! codes and error reporting. The server and client plumbing lives in a separate crate built on
//! top of this one.

pub mod text;
pub mod html;
pub mod dispatch;
pub mod status;
pub mod method;
pub mod healthcheck;
pub mod value;
pub mod request;
pub mod version;
pub mod api;
pub mod markdown;
pub mod route;
pub mod app;
pub mod error;
pub mod disco;
pub mod client;
pub mod middleware;
pub mod listener;
pub mod types;
pub mod socket;
