//! A TCP concentrator in front of a Sentinel-managed key-value deployment:
//! the wire codec, framed streams, the Sentinel watcher's decisions, the
//! dispatcher that pairs clients with workers, and the configuration model.

pub mod types;
pub mod stream;
pub mod text;
pub mod codec;
pub mod encoding;
pub mod connector;
pub mod sentinel;
pub mod dispatcher;
pub mod config;
pub mod worker;
