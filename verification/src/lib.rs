//! Health check for the local Morpheus proxy.
//!
//! The library classifies the outcome of a single HTTP GET against the
//! proxy's health endpoint: a 200 response whose body decodes as text is
//! healthy, anything else yields a diagnostic message. The network call
//! itself is performed by the surrounding binary, which hands the observed
//! outcome to [`checker::check_outcome`].

pub mod checker;
pub mod digits;
pub mod encoding;
pub mod outcome;

pub use checker::check_outcome;
pub use outcome::{FetchOutcome, HealthError};
