//! Issuing, tracking and revoking scoped API keys for a service: per-key daily rate limits
//! on fixed UTC-day buckets, scope-based authorization, expiration, and the service's
//! aggregate key counts.

pub mod accounts;
pub mod address;
pub mod authorization;
pub mod error;
pub mod instructions;
pub mod laws;
pub mod usage;
pub mod validation;
