//! A minimal concurrent-state-service core: a single shared in-memory
//! counter with linearizable increment-and-read semantics, together with
//! the pure request-handler functions of a small echo/health web service.
//!
//! The counter is the only stateful component. `counter` holds the
//! sequential core, whose contract pins down the read-modify-write and
//! whose ghost history carries the no-gaps, no-repeats guarantee;
//! `service` wraps one counter in a verified reader-writer lock, so that
//! any number of concurrent tasks share it through one handle; `handlers`
//! holds the pure request-handler cores. Routing, parameter extraction,
//! JSON envelopes, and status codes stay with the web framework around
//! the library.

pub mod counter;
pub mod handlers;
pub mod service;
