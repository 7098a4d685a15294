//! Events that report the lifecycle of assets and the failures of their loads.
pub mod id;
pub mod path;
pub mod error;
pub mod event;
