//! POSIX thread, semaphore and interval-timer bookkeeping for a unikernel.
//!
//! The kernel supplies tasks, wait queues and a clock; this crate holds the
//! state that sits between them and the POSIX surface, and decides what each
//! call does to it: which thread may be joined and what the joiner receives,
//! when a semaphore lets a waiter through, and what a timer's background task
//! does next. Every blocking step (spawning, joining, sleeping, waking) is
//! carried out by the caller between two calls into this crate.

pub mod error;
pub mod pthread;
pub mod sem;
pub mod timer;
