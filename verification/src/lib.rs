//! Verified pieces of a binding to the system calls of Unix: arrays that
//! end in a sentinel, as the `exec` family takes them; the capability sets
//! of a thread; and what the wrappers of some system calls decide.

pub use libc::{c_int, c_void};

pub mod null_terminated;
pub mod sys;
pub mod unistd;
