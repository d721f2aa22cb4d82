use vstd::prelude::*;

verus! {

/// Bit pattern of the sign of an IEEE-754 double.
pub const SIGN_BIT: u64 = 0x8000_0000_0000_0000;

/// The order key of a double given by its bit pattern: keys compare as the
/// doubles do (for values that are not NaN), and both zeros share one key.
pub open spec fn order_key_spec(bits: u64) -> u64 {
    if bits == SIGN_BIT {
        SIGN_BIT
    } else if bits & SIGN_BIT != 0 {
        !bits
    } else {
        bits | SIGN_BIT
    }
}

/// Maps the bit pattern of a fitness value to its order key.
pub fn order_key(bits: u64) -> (r: u64)
    ensures
        r == order_key_spec(bits),
{
    if bits == SIGN_BIT {
        SIGN_BIT
    } else if bits & SIGN_BIT != 0 {
        !bits
    } else {
        bits | SIGN_BIT
    }
}

pub open spec fn bits_of_key_spec(key: u64) -> u64 {
    if key & SIGN_BIT != 0 {
        key & !SIGN_BIT
    } else {
        !key
    }
}

/// The bit pattern of the double whose order key is `key`. A zero comes back
/// as positive zero.
pub fn bits_of_key(key: u64) -> (r: u64)
    ensures
        r == bits_of_key_spec(key),
{
    if key & SIGN_BIT != 0 {
        key & !SIGN_BIT
    } else {
        !key
    }
}

/// Turning bits into a key and back gives the same bits, but for negative
/// zero, which comes back positive.
pub proof fn lemma_key_round_trip(bits: u64)
    ensures
        bits_of_key_spec(order_key_spec(bits)) == if bits == SIGN_BIT { 0 } else { bits },
{
    assert(SIGN_BIT == 0x8000_0000_0000_0000u64);
    if bits == 0x8000_0000_0000_0000u64 {
        assert((0x8000_0000_0000_0000u64 & 0x8000_0000_0000_0000u64) != 0 && (0x8000_0000_0000_0000u64 & !0x8000_0000_0000_0000u64) == 0) by (bit_vector);
    } else if bits & 0x8000_0000_0000_0000u64 != 0 {
        assert(bits & 0x8000_0000_0000_0000u64 != 0 ==> (!bits & 0x8000_0000_0000_0000u64) == 0 && !!bits == bits) by (bit_vector);
    } else {
        assert(bits & 0x8000_0000_0000_0000u64 == 0 ==> ((bits | 0x8000_0000_0000_0000u64) & 0x8000_0000_0000_0000u64) != 0 && ((bits | 0x8000_0000_0000_0000u64) & !0x8000_0000_0000_0000u64) == bits) by (bit_vector);
    }
}

/// Mask of the exponent field of a double.
pub const EXPONENT_MASK: u64 = 0x7ff0_0000_0000_0000;

/// Mask of the fraction field of a double.
pub const FRACTION_MASK: u64 = 0x000f_ffff_ffff_ffff;

/// The double with these bits is NaN.
pub open spec fn is_nan_spec(bits: u64) -> bool {
    bits & EXPONENT_MASK == EXPONENT_MASK && bits & FRACTION_MASK != 0
}

/// The double with these bits is a zero of either sign.
pub open spec fn is_zero_spec(bits: u64) -> bool {
    bits == 0 || bits == SIGN_BIT
}

/// Floating-point equality of two doubles given by their bits: NaN equals
/// nothing, the two zeros are equal, and any other value equals only itself.
pub open spec fn float_eq_spec(a: u64, b: u64) -> bool {
    !is_nan_spec(a) && !is_nan_spec(b) && (a == b || (is_zero_spec(a) && is_zero_spec(b)))
}

/// Coordinate-wise floating-point equality of two positions.
pub open spec fn position_eq_spec(a: Seq<u64>, b: Seq<u64>) -> bool {
    a.len() == b.len() && forall|i: int| 0 <= i < a.len() ==> float_eq_spec(#[trigger] a[i], b[i])
}

pub fn is_nan(bits: u64) -> (r: bool)
    ensures
        r == is_nan_spec(bits),
{
    bits & EXPONENT_MASK == EXPONENT_MASK && bits & FRACTION_MASK != 0
}

pub fn float_eq(a: u64, b: u64) -> (r: bool)
    ensures
        r == float_eq_spec(a, b),
{
    !is_nan(a) && !is_nan(b) && (a == b || ((a == 0 || a == SIGN_BIT) && (b == 0 || b == SIGN_BIT)))
}

/// Compares two positions, given as the bits of their coordinates, as
/// floating-point vectors.
pub fn position_eq(a: &Vec<u64>, b: &Vec<u64>) -> (r: bool)
    ensures
        r == position_eq_spec(a@, b@),
{
    if a.len() != b.len() {
        return false;
    }
    let mut i: usize = 0;
    while i < a.len()
        invariant
            a.len() == b.len(),
            0 <= i <= a.len(),
            forall|k: int| 0 <= k < i ==> float_eq_spec(#[trigger] a@[k], b@[k]),
        decreases a.len() - i,
    {
        if !float_eq(a[i], b[i]) {
            return false;
        }
        i += 1;
    }
    true
}

/// A position with no NaN coordinate equals itself.
pub proof fn lemma_position_eq_refl(a: Seq<u64>)
    requires
        forall|i: int| 0 <= i < a.len() ==> !is_nan_spec(#[trigger] a[i]),
    ensures
        position_eq_spec(a, a),
{
}

} // verus!
