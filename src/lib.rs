pub mod announce;
pub mod builds;
pub mod digest;
pub mod dispatch;
pub mod fetch;
pub mod ingest;
pub mod laws;
pub mod model;
pub mod protocol;
pub mod service;
