//! Error shape of the loyalty store.

use vstd::prelude::*;

verus! {

/// Errors a loyalty store can raise.
#[derive(Debug)]
pub enum Error {
    /// Trying to remove too many loyalty points.
    ///
    /// This would result in a negative number of loyalty points, which is not
    /// supported.
    NegativePointsTotal { current_points: u32, delta_points: i32 },
    /// Concrete adapter errors.
    ///
    /// This could represent any errors from a concrete adapter that is not
    /// part of the domain model, such as connectivity, configuration, or
    /// permission errors. The cause crosses the boundary as an opaque,
    /// string-describable value.
    Adapter(String),
}

} // verus!
