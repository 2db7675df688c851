//! An in-process multi-producer, single-consumer channel, together with a few
//! small self-contained data structures: a sequential spinlock model, cell
//! types with dynamic borrow tracking, an owning pointer, a flattening
//! iterator, and string tokenizers.

pub mod boks;
pub mod builder;
pub mod cells;
pub mod channel;
pub mod dispatch;
pub mod flatten;
pub mod queue;
pub mod rc;
pub mod spinlock;
pub mod strsplit;
pub mod strtok;
