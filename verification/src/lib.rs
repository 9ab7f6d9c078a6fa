//! An HTTP gateway in front of a single key-value cache: the routing of
//! requests, the replies for each outcome of a cache operation, and the
//! start-up settings, as values that a server can act on.

pub mod backend;
pub mod config;
pub mod gateway;
pub mod handlers;
pub mod json;
pub mod key;
pub mod model;
pub mod response;
pub mod router;
