//! An allocator adapter over a native backend of four primitives (allocate,
//! allocate zeroed, reallocate, deallocate): the global interface forwards to
//! them, and the fine-grained interface adds zero-size blocks, in-place
//! resizing at an unchanged alignment, resizing by copy at a changed one, and
//! zero-filling of the bytes a grow adds.
pub mod arena;
pub mod backend;
pub mod heap;
pub mod laws;
pub mod layout;

pub use arena::{Arena, FILL};
pub use backend::{Backend, Call, Memory};
pub use heap::{AllocError, Heap};
pub use layout::{Block, Layout};
