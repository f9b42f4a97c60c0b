//! A bounded-concurrency driver: it pulls fallible asynchronous operations
//! from an upstream source, keeps up to a configured number of them in
//! flight at once, and emits each result as soon as it completes, in
//! completion order.
//!
//! The driver itself is a derived-state machine over two collaborators, the
//! source and the multiplexer, reached through the [`source::Upstream`] and
//! [`mux::Mux`] traits. Scripted implementations of both live here so the
//! driver can be exercised deterministically; an embedding application
//! supplies implementations backed by real asynchronous machinery.

pub mod driver;
pub mod mux;
pub mod poll;
pub mod source;
