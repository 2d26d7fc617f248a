//! Core of a randomized UI-input fuzzer: resolving a window by title over a
//! window hierarchy, filtering randomly drawn input codes against a denylist,
//! and accumulating run statistics.

pub mod error;
pub mod fuzzer;
pub mod resolver;
pub mod statistics;
