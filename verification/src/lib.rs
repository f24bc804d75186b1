//! A synchronous-to-asynchronous bridge that lets foreign (mobile) callers
//! drive a remote Convex backend without blocking their calling thread.
//!
//! This crate holds the verified core of the bridge: the argument marshaler
//! that turns JSON-encoded argument strings into the backend's typed argument
//! map, the error taxonomy that every failure is normalized into before it
//! crosses back to the caller, the cancellable subscription delivery logic,
//! and the decision rules for lazy single-flight connection establishment,
//! auth management and connectivity-state relaying.
//!
//! The asynchronous runtime plumbing (the task executor, the network client
//! and the long-lived background tasks) lives outside this crate and drives
//! the decision functions defined here.

pub mod args;
pub mod auth;
pub mod connection;
pub mod errors;
pub mod json;
pub mod logging;
pub mod relay;
pub mod results;
pub mod subscription;

pub use args::{parse_json_args, QueryArgs};
pub use errors::ClientError;
pub use logging::init_logging;
pub use subscription::{QuerySubscriber, SubscriptionHandle};
