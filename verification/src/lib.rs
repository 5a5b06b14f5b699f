//! Content-addressed storage for a versioned array store: the operations
//! every backend offers, and a decorator that records which objects were
//! read through it.

pub mod format;
pub mod storage;
