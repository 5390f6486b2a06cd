//! Deep-link OAuth callback capture.
//!
//! An identity provider finishes an authorization flow by redirecting the
//! browser to a private URI scheme; the operating system hands the activation
//! URI to the running application. This library holds the verified core of
//! that bridge: validating the scheme name that is registered with the
//! platform, tracking the registration state, parsing an activation URI, and
//! extracting the bearer token from a matching OAuth callback so that it can
//! be delivered downstream exactly once.
//!
//! The platform glue (the OS registration call, the activation event channel,
//! and the downstream delivery) is input/output and lives outside this crate;
//! it hands raw strings in and takes plain values back.

pub mod chars;
pub mod extract;
pub mod query;
pub mod registrar;
pub mod uri;
