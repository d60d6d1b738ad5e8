//! Client core for a Spring Cloud Config service.
//!
//! A handle names one configuration document by service root, label and
//! application, caches the last document that was loaded, and hands out
//! snapshots of it. The crate performs no I/O itself: `SCC::load` says which
//! outside work comes next, and is told how that work ended.

pub mod endpoint;
pub mod error;
pub mod handle;
pub mod laws;
pub mod protocol;

pub use endpoint::{endpoint, is_success};
pub use error::SCCError;
pub use handle::SCC;
pub use protocol::{Event, Step};
