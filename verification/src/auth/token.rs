//! Token-related value types: families, secrets, and issued-token records.

pub mod family;
pub mod record;
pub mod secret;
