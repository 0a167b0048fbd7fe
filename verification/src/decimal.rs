//! Fixed-point fractions as exchanged with the chain.
use vstd::prelude::*;

verus! {

/// A non-negative fixed-point number with 18 fractional digits: the value is
/// `atomics / 10^18`.
#[derive(Clone, Copy, Debug, PartialEq, Eq, Structural)]
pub struct StdDecimal {
    pub atomics: u128,
}

} // verus!
