//! Core of a small web server: a bounded worker-thread pool with a shared
//! job queue, plus the request routing and response formatting rules.
//!
//! The pool logic is written as a verified state machine over plain data:
//! the queue discipline (first-in, first-out, each job delivered to exactly
//! one worker), the worker loop decision, and the two-phase teardown
//! (close the sending end, then join every worker in construction order).
//! The operating-system shell around it — real threads, sockets, files —
//! performs the actions this library decides on.

pub mod http;
pub mod pool;
pub mod queue;

pub use pool::ThreadPool;
