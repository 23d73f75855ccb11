//! A model of a minimal concurrent TCP echo service: a fixed pool of
//! acceptor workers shares one listening socket, and each worker serially
//! echoes every byte of an accepted connection back to its peer until the
//! peer closes the stream.
//!
//! The modules hold the service's decision logic, verified: which errors are
//! fatal, how a connection moves through its lifecycle, what the echo loop
//! does with each read, how the worker pool assigns pending connections, and
//! how startup proceeds or aborts. The surrounding process performs the
//! actual socket calls and feeds their outcomes in as events.

pub mod error;
pub mod lifecycle;
pub mod pool;
pub mod session;
pub mod startup;
