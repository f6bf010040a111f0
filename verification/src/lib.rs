//! A caching reverse proxy core for an S3-compatible object store.
//!
//! The crate holds the verified logic of the proxy: classifying request
//! paths, routing requests to S3 operations, building cache keys, the
//! weight-bounded cache store with per-entry expiry, the cache layer's
//! request/response decisions, and the webhook invalidation mapping.
//! The asynchronous edges — the listeners, the upstream client and the
//! broadcast plumbing — drive this logic from outside.

use vstd::prelude::*;

pub mod cache;
pub mod config;
pub mod error;
pub mod middleware;
pub mod ops;
pub mod path;
pub mod policy;
pub mod query;
pub mod req;
pub mod router;
pub mod s3;
pub mod strutil;
pub mod table;
pub mod webhook;

pub use cache::layer::{CacheLayer, CacheState};
pub use cache::logic::CacheIntent;
pub use config::AppConfig;
pub use ops::OperationType;
pub use path::S3PathData;
pub use req::{Header, Method, Request, Response, SendError};
pub use s3::S3Extension;
pub use table::Router;

verus! {

} // verus!
