//! A minimal HTTP request router.
//!
//! A [`Router`] maps a request's method and exact target string to a
//! registered handler, and answers `404 Not Found` with an empty body when
//! nothing is registered for the pair. Matching is by equality only: no
//! patterns, no prefixes, no normalisation of the target.
//!
//! The routing table is modelled as a `Map<Route, H>`; every operation states
//! its effect on that map, and the laws in [`router`] relate registration to
//! dispatch.

pub mod message;
pub mod router;
pub mod verb;

pub use message::{
    body_ended, header_count, is_fallback, is_fallback_answer, method_of, status_of, target_of,
};
pub use router::{accepts_all, answers, resolve, Route, Router};
pub use verb::Verb;
