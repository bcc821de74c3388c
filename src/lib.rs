//! Typed values for a vector-database client: the primitive type model with
//! its wire codes, field and collection schemas with their primary-key rule,
//! homogeneous column containers, and the result shapes of the service's
//! replies.
use vstd::prelude::*;

pub mod auth;
pub mod column;
pub mod common;
pub mod error;
pub mod options;
pub mod results;
pub mod schema;
pub mod text;
pub mod utils;

verus! {

/// Interval, in milliseconds, between two polls while a collection loads.
pub const WAIT_LOAD_DURATION_MS: u64 = 500;

} // verus!
