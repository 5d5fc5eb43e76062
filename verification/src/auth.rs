//! Validated value types shared across the broker: identifiers, scope sets,
//! and token records.

pub mod id;
pub mod scope;
pub mod token;
