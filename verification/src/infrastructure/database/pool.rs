//! The connection pool.
use vstd::prelude::*;

verus! {

/// The most connections the pool opens.
pub const MAX_CONNECTIONS: u32 = 5;

} // verus!
