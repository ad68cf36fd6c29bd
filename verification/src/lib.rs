//! Streaming statistical indicators over sequential numeric observations.
//!
//! Every indicator follows one execution contract: a single `execute`
//! operation that either commits an observation into the indicator's state or
//! peeks at the output that committing it would produce, leaving the state
//! untouched. The indicators are generic over the scalar type they aggregate,
//! so the state machinery — bounded windows, warm-up seeding, and the
//! commit/peek discipline — is verified independently of the arithmetic that a
//! caller plugs in.

pub mod fin_error;
pub mod traits;
pub mod signals;
pub mod window;
