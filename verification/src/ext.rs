//! Public extension contracts (request signing, token leasing, rate
//! limiting): context types that downstream adapters consume.

pub mod rate_limit;
pub mod token_lease;
