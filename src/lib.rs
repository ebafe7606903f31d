//! Issuing server certificates for workload modules, and logging the requests that ask.
//!
//! A request names a module and a generation (from the route) and carries a common name and an
//! expiration (in its body). `cert` validates it, caps its validity at the workload's policy,
//! derives the store key, has a certificate store issue the certificate and maps the result to
//! a response (`response`); `error` classifies what can go wrong. `logging` wraps any handler
//! and writes one access-log line per request. `laws` states and proves properties that
//! relate these functions.

pub mod text;
pub mod error;
pub mod time;
pub mod validity;
pub mod response;
pub mod cert;
pub mod logging;
pub mod laws;
