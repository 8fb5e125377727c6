//! Errors of channel construction.
use vstd::prelude::*;

verus! {

/// Why a key, script or transaction could not be built.
#[derive(Debug, Clone, Copy, PartialEq, Eq, Structural)]
pub enum ChannelError {
    /// A public key does not encode a valid curve point, or a point sum is the point at infinity.
    InvalidPoint,
    /// A secret key is not a valid scalar, or a tweaked secret is invalid.
    InvalidScalar,
    /// A relative delay is outside the 16-bit block-count range.
    InvalidDelay,
    /// The output values do not fit in a 64-bit amount.
    AmountOverflow,
}

} // verus!
