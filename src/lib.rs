//! Typed client core for a building, space and asset management REST service.
//!
//! The library describes every API call as data (a request descriptor), builds
//! the unsent HTTP call from it, classifies failed outcomes into a closed set
//! of error kinds, and holds the entity and relation model shared by all
//! categories. Sending requests and JSON encoding are left to the caller.
pub mod error;
pub mod handler;
pub mod ids;
pub mod models;
pub mod request;

pub use error::{Body, Error, ErrorBody, ErrorKind, Failure};
pub use handler::Handler;
pub use ids::Uuid;
pub use request::{Call, Execution, Method, Received, Request};
