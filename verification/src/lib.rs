//! Verified core of a URL-redirection service.
//!
//! Clients submit a long URL and receive a short key; a later request for the
//! key is redirected to the stored URL, and each successful redirect emits a
//! visit event.  The service itself is an orchestration layer over three
//! narrow capabilities — storage, key generation and event dispatch — each an
//! interface with a contract, so that any conforming backend can be plugged
//! in without touching the request handling.
//!
//! The request handlers, the error taxonomy with its mapping to client-visible
//! statuses, the visit-event encoding and in-memory reference backends are all
//! verified.  Network backends live outside this crate and talk to it through
//! plain values.

pub mod config;
pub mod database;
pub mod handlers;
pub mod key_generator;
pub mod numbers;
pub mod state;
pub mod task_sender;
pub mod visit;
