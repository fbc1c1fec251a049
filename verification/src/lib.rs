//! A combined interface to three filesystems of a secure element: internal
//! flash, external flash and volatile RAM.
//!
//! The library decides; it performs no input or output itself. Every
//! operation is a function from what the backends have answered so far to the
//! next [`protocol::Step`]: a request for one backend, the result, or the
//! verdict that the storage is beyond repair. The embedding firmware performs
//! each request on the backend it names and hands the reply back.
pub mod config;
pub mod error;
pub mod key;
pub mod lifecycle;
pub mod path;
pub mod protocol;
pub mod store;
pub mod types;
