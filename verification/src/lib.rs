//! A checksum-addressed module cache seen from its host: opaque handles,
//! transfer buffers, an error record, and the four operations that create a
//! cache, store a module in it, retrieve a module from it and destroy it.
//!
//! The engine that stores the modules is the caller's: every operation takes
//! the engine call as a function value and decides what is asked of the engine
//! and what its answer means to the host.

pub mod args;
pub mod cache;
pub mod checksum;
pub mod engine;
pub mod error;
pub mod handle;
pub mod memory;
pub mod text;

pub use crate::checksum::{Checksum, CHECKSUM_LEN};
pub use crate::engine::{settle, CacheConfig, ConfigView, EngineOutcome};
pub use crate::error::{clear_error, handle_c_error, set_error, Error, ErrorView};
pub use crate::handle::{cache_t, HandleState, Registry};
pub use crate::memory::{Buffer, BufferView};
