use vstd::prelude::*;

verus! {

/// The numeric capabilities that the engine needs of an element type:
/// the two identities, ring arithmetic and an order.
///
/// Each operation is described by a spec function, so that the contracts of
/// the tensor operations can be stated for every element type alike.
pub trait TensorTrait: Sized + Copy {
    spec fn spec_zero() -> Self;

    spec fn spec_one() -> Self;

    spec fn spec_add(a: Self, b: Self) -> Self;

    spec fn spec_sub(a: Self, b: Self) -> Self;

    spec fn spec_mul(a: Self, b: Self) -> Self;

    spec fn spec_gt(a: Self, b: Self) -> bool;

    fn zero() -> (r: Self)
        ensures
            r == Self::spec_zero(),
    ;

    fn one() -> (r: Self)
        ensures
            r == Self::spec_one(),
    ;

    fn plus(self, other: Self) -> (r: Self)
        ensures
            r == Self::spec_add(self, other),
    ;

    fn minus(self, other: Self) -> (r: Self)
        ensures
            r == Self::spec_sub(self, other),
    ;

    fn times(self, other: Self) -> (r: Self)
        ensures
            r == Self::spec_mul(self, other),
    ;

    fn greater_than(self, other: Self) -> (r: bool)
        ensures
            r == Self::spec_gt(self, other),
    ;

    /// Maps a 32-bit random sample `r` into the half-open range from `low` to `high`.
    fn scale_sample(low: Self, high: Self, r: u32) -> (s: Self)
        ensures
            s == Self::spec_scale_sample(low, high, r),
    ;

    spec fn spec_scale_sample(low: Self, high: Self, r: u32) -> Self;

    /// Zero is a right identity of addition.
    proof fn lemma_add_zero(a: Self)
        ensures
            Self::spec_add(a, Self::spec_zero()) == a,
    ;

    /// Zero is a left identity of addition.
    proof fn lemma_zero_add(a: Self)
        ensures
            Self::spec_add(Self::spec_zero(), a) == a,
    ;

    /// Subtracting zero changes nothing.
    proof fn lemma_sub_zero(a: Self)
        ensures
            Self::spec_sub(a, Self::spec_zero()) == a,
    ;

    /// One is a left identity of multiplication.
    proof fn lemma_one_mul(a: Self)
        ensures
            Self::spec_mul(Self::spec_one(), a) == a,
    ;

    /// Zero times anything is zero.
    proof fn lemma_zero_mul(a: Self)
        ensures
            Self::spec_mul(Self::spec_zero(), a) == Self::spec_zero(),
    ;

    /// Addition is commutative.
    proof fn lemma_add_comm(a: Self, b: Self)
        ensures
            Self::spec_add(a, b) == Self::spec_add(b, a),
    ;

    /// Addition is associative.
    proof fn lemma_add_assoc(a: Self, b: Self, c: Self)
        ensures
            Self::spec_add(Self::spec_add(a, b), c) == Self::spec_add(a, Self::spec_add(b, c)),
    ;

    /// Subtracting is adding the negation.
    proof fn lemma_sub_is_add_neg(a: Self, b: Self)
        ensures
            Self::spec_sub(a, b) == Self::spec_add(a, Self::spec_sub(Self::spec_zero(), b)),
    ;

    /// The order is strict: nothing is greater than itself.
    proof fn lemma_gt_irreflexive(a: Self)
        ensures
            !Self::spec_gt(a, a),
    ;

    /// The order is transitive.
    proof fn lemma_gt_transitive(a: Self, b: Self, c: Self)
        requires
            Self::spec_gt(a, b),
            Self::spec_gt(b, c),
        ensures
            Self::spec_gt(a, c),
    ;

    /// The order is total.
    proof fn lemma_gt_total(a: Self, b: Self)
        ensures
            Self::spec_gt(a, b) || Self::spec_gt(b, a) || a == b,
    ;

    /// One is greater than zero.
    proof fn lemma_one_gt_zero()
        ensures
            Self::spec_gt(Self::spec_one(), Self::spec_zero()),
    ;
}

/// Relies on num's `Zero::zero` for `i64`: the additive identity `0`.
#[verifier::external_body]
fn num_zero_i64() -> (r: i64)
    ensures
        r == 0,
{
    <i64 as num::Zero>::zero()
}

/// Relies on num's `One::one` for `i64`: the multiplicative identity `1`.
#[verifier::external_body]
fn num_one_i64() -> (r: i64)
    ensures
        r == 1,
{
    <i64 as num::One>::one()
}

/// Signed 64-bit integers with two's-complement (wrapping) arithmetic.
impl TensorTrait for i64 {
    open spec fn spec_zero() -> i64 {
        0
    }

    open spec fn spec_one() -> i64 {
        1
    }

    open spec fn spec_add(a: i64, b: i64) -> i64 {
        a.wrapping_add(b)
    }

    open spec fn spec_sub(a: i64, b: i64) -> i64 {
        a.wrapping_sub(b)
    }

    open spec fn spec_mul(a: i64, b: i64) -> i64 {
        a.wrapping_mul(b)
    }

    open spec fn spec_gt(a: i64, b: i64) -> bool {
        a > b
    }

    open spec fn spec_scale_sample(low: i64, high: i64, r: u32) -> i64 {
        if low < high {
            (low + (high - low) * (r as int) / 0x1_0000_0000) as i64
        } else {
            low
        }
    }

    fn zero() -> (r: i64) {
        num_zero_i64()
    }

    fn one() -> (r: i64) {
        num_one_i64()
    }

    fn plus(self, other: i64) -> (r: i64) {
        self.wrapping_add(other)
    }

    fn minus(self, other: i64) -> (r: i64) {
        self.wrapping_sub(other)
    }

    fn times(self, other: i64) -> (r: i64) {
        self.wrapping_mul(other)
    }

    fn greater_than(self, other: i64) -> (r: bool) {
        self > other
    }

    fn scale_sample(low: i64, high: i64, r: u32) -> (s: i64) {
        if low < high {
            let width: i128 = high as i128 - low as i128;
            proof {
                assert(0 <= width * (r as int) <= width * 0xffff_ffff) by (nonlinear_arith)
                    requires 0 < width, 0 <= r <= 0xffff_ffff;
            }
            let offset: i128 = width * (r as i128) / 0x1_0000_0000;
            proof {
                assert(offset < width) by (nonlinear_arith)
                    requires offset == width * (r as int) / 0x1_0000_0000, 0 < width, 0 <= r <= 0xffff_ffff;
            }
            (low as i128 + offset) as i64
        } else {
            low
        }
    }

    proof fn lemma_add_zero(a: i64) {
    }

    proof fn lemma_zero_add(a: i64) {
    }

    proof fn lemma_sub_zero(a: i64) {
    }

    proof fn lemma_zero_mul(a: i64) {
        assert(0 * a == 0);
    }

    proof fn lemma_add_comm(a: i64, b: i64) {
    }

    proof fn lemma_add_assoc(a: i64, b: i64, c: i64) {
    }

    proof fn lemma_sub_is_add_neg(a: i64, b: i64) {
    }

    proof fn lemma_gt_irreflexive(a: i64) {
    }

    proof fn lemma_gt_transitive(a: i64, b: i64, c: i64) {
    }

    proof fn lemma_gt_total(a: i64, b: i64) {
    }

    proof fn lemma_one_gt_zero() {
    }

    proof fn lemma_one_mul(a: i64) {
        let range: int = 0x1_0000_0000_0000_0000;
        assert(1 * a == a);
        if a >= 0 {
            vstd::arithmetic::div_mod::lemma_small_mod(a as nat, range as nat);
        } else {
            vstd::arithmetic::div_mod::lemma_fundamental_div_mod_converse(a as int, range, -1, a + range);
        }
    }
}

} // verus!
