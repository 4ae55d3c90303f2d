//! A container for signed data.
//!
//! A `Letter` binds a piece of content to a `Signature`: either one made
//! directly with the master key, or one made by a certificate that is itself
//! checked against the master key. Validation is a small state machine: the
//! letter says which question the validator has to answer next, and the
//! answer decides the outcome.
pub mod fingerprint;
pub mod letter;
pub mod signature;
pub mod validation;

pub use fingerprint::Fingerprint;
pub use letter::Letter;
pub use signature::Signature;
pub use validation::{Query, Step, ValidationError};
