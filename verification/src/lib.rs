//! A page-granular, growable linear memory with bounds-checked access.
//!
//! A [`MemType`] fixes the range of page counts a memory may occupy; a
//! [`Memory`] owns a zero-initialised byte buffer of a whole number of pages,
//! which can be read, written and grown within that range. Every operation is
//! specified against the ghost state [`MemoryState`].

pub mod error;
pub mod laws;
pub mod limit;
pub mod memory;
pub mod model;

pub use error::{LimitError, MemoryError};
pub use limit::{MemType, Ownership};
pub use memory::Memory;
pub use model::{MemoryState, PAGE_SIZE};
