//! Random samples for the random leaf constructors.
use vstd::prelude::*;
use crate::traits::TensorTrait;
use crate::types::error::TensorError;

verus! {

/// Relies on `getrandom::getrandom`: it fills a buffer with bytes from the
/// system's random source, or reports that the source failed. Nothing is
/// promised of the bytes.
#[verifier::external_body]
fn random_u32() -> (r: Option<u32>) {
    let mut buffer = [0u8; 4];
    match getrandom::getrandom(&mut buffer) {
        Ok(()) => Some(u32::from_le_bytes(buffer)),
        Err(_) => Option::None,
    }
}

/// Whether `v` is a value that `random_number(low, high)` can return.
pub open spec fn is_sample<T: TensorTrait>(v: T, low: T, high: T) -> bool {
    exists|r: u32| v == T::spec_scale_sample(low, high, r)
}

/// A random value between `low` and `high`: a 32-bit sample from the system's
/// source, scaled into that range by the element type. Fails with
/// `RandomUnavailable` when the source fails.
pub fn random_number<T: TensorTrait>(low: T, high: T) -> (r: Result<T, TensorError>)
    ensures
        r matches Ok(v) ==> is_sample(v, low, high),
        r matches Err(e) ==> e == TensorError::RandomUnavailable,
{
    match random_u32() {
        Some(bits) => Ok(T::scale_sample(low, high, bits)),
        Option::None => Err(TensorError::RandomUnavailable),
    }
}

} // verus!
