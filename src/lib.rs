//! A memory-mapped byte buffer: a region of bytes that is either backed by a
//! file or anonymous (zero-filled), with a protection mode that decides who
//! may write to it and whether writes reach the backing file.
pub mod error;
pub mod laws;
pub mod mmap;
pub mod protection;

pub use error::MapError;
pub use mmap::{Backing, Mmap, MmapView, WriteBack};
pub use protection::{FileAccess, Protection};
