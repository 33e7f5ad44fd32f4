//! The error surfaced by driver operations.

use vstd::prelude::*;

verus! {

/// Error type of the AS5600 driver.
///
/// Decoding and encoding are total, so the only failure a driver operation
/// can surface is the one the underlying bus transport reported.
#[derive(Debug, Clone, Copy, PartialEq, Eq)]
pub enum AS56Error<E> {
    /// The underlying two-wire bus transport failed.
    I2c(E),
}

} // verus!
