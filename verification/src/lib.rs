//! Provider-selection and client-lifecycle layer of a secret-synchronization
//! service.
//!
//! The library decides which identity-provider backend is active for the
//! process (probing the known configuration schemas in a fixed priority
//! order), and offers one uniform contract for provisioning and validating
//! OIDC client registrations on the chosen backend, sanitizing every backend
//! error into a fixed, caller-safe message.

pub mod client;
pub mod config;
pub mod provider;
