//! Protocol core of a client for a Go IAM server.
//!
//! The crate decides what is sent to the server and what each reply means;
//! it performs no I/O of its own. A caller opens an exchange with a method
//! of [`Service`], sends the request over any HTTP transport, and hands what
//! came back to [`response::after_send`] and then to the function of
//! [`response`] that is named after the operation.

pub mod auth;
pub mod error;
pub mod request;
pub mod response;
pub mod service;
pub mod service_impl;
pub mod status;
pub mod text;
pub mod types;

pub use error::GoIamError;
pub use request::{Field, HttpRequest, Method};
pub use response::Operation;
pub use service::Service;
pub use service_impl::{new_service, ServiceImpl};
pub use types::{Resource, User, UserResource, UserRole};
