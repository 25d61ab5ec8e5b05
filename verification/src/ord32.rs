//! The 32-bit instantiation of the wrapper.

use vstd::prelude::*;
use vstd::arithmetic::mul::{lemma_mul_inequality, lemma_mul_strict_inequality};
use vstd::arithmetic::power2::{pow2, lemma_pow2_pos, lemma_pow2_unfold, lemma_pow2_strictly_increases};
use vstd::arithmetic::div_mod::lemma_fundamental_div_mod;
use core::cmp::Ordering;

verus! {

/// Bit pattern of the sign bit; also the first pattern whose sign bit is set.
pub const SIGN_BIT_32: u32 = 0x8000_0000;

/// Bit pattern of positive infinity: all exponent bits set, fraction zero.
/// A pattern is NaN exactly when its magnitude bits exceed this value.
pub const INF_BITS_32: u32 = 0x7f80_0000;

/// The canonical quiet-NaN pattern, used to hash every NaN alike.
pub const CANONICAL_NAN_32: u32 = 0x7fc0_0000;

/// The magnitude bits of a pattern: the pattern with its sign bit cleared.
pub open spec fn abs_bits_32(b: u32) -> u32 {
    if b >= SIGN_BIT_32 {
        (b - SIGN_BIT_32) as u32
    } else {
        b
    }
}

/// Whether a bit pattern encodes NaN: all exponent bits set and a nonzero
/// fraction, i.e. magnitude strictly above that of infinity.
pub open spec fn is_nan_32(b: u32) -> bool {
    abs_bits_32(b) > INF_BITS_32
}

/// Whether a bit pattern encodes a zero, of either sign.
pub open spec fn is_zero_32(b: u32) -> bool {
    abs_bits_32(b) == 0
}

/// The rank of a bit pattern: an unsigned key whose order coincides with the
/// numeric order of the encoded values, for every pair of non-NaN patterns.
/// IEEE-754 stores sign and magnitude, with the magnitude field ordered like
/// the number it encodes; so patterns with the sign bit clear rank above all
/// patterns with it set, in magnitude order, and patterns with the sign bit
/// set rank in reverse magnitude order. Both zeros get the same rank, since
/// they are numerically equal.
pub open spec fn rank_32(b: u32) -> u32 {
    if is_zero_32(b) {
        SIGN_BIT_32
    } else if b < SIGN_BIT_32 {
        (b + SIGN_BIT_32) as u32
    } else {
        (u32::MAX - b) as u32
    }
}

/// Equality of the wrapper: all NaN patterns are equal to each other, and
/// otherwise two patterns are equal exactly when the values they encode are
/// numerically equal (which makes the two zeros equal).
pub open spec fn eq_32(a: u32, b: u32) -> bool {
    if is_nan_32(a) || is_nan_32(b) {
        is_nan_32(a) && is_nan_32(b)
    } else {
        rank_32(a) == rank_32(b)
    }
}

/// The native partial comparison: no result when either operand is NaN,
/// otherwise the numeric order of the encoded values.
pub open spec fn native_cmp_32(a: u32, b: u32) -> Option<Ordering> {
    if is_nan_32(a) || is_nan_32(b) {
        None
    } else if rank_32(a) < rank_32(b) {
        Some(Ordering::Less)
    } else if rank_32(a) == rank_32(b) {
        Some(Ordering::Equal)
    } else {
        Some(Ordering::Greater)
    }
}

/// The total order of the wrapper: the native order wherever it is defined;
/// where it is not, NaN sorts below every non-NaN value and equal to NaN.
pub open spec fn total_cmp_32(a: u32, b: u32) -> Ordering {
    match native_cmp_32(a, b) {
        Some(o) => o,
        None => if is_nan_32(a) && !is_nan_32(b) {
            Ordering::Less
        } else if !is_nan_32(a) && is_nan_32(b) {
            Ordering::Greater
        } else {
            Ordering::Equal
        },
    }
}

/// The canonical pattern a value hashes from: one fixed pattern for every
/// NaN, one fixed pattern for both zeros, and the value's own bits otherwise.
pub open spec fn canonical_bits_32(b: u32) -> u32 {
    if is_nan_32(b) {
        CANONICAL_NAN_32
    } else if is_zero_32(b) {
        0u32
    } else {
        b
    }
}

/// The value of the implicit leading significand bit of a normal number;
/// also the modulus that splits the magnitude bits into exponent field and
/// fraction field.
pub const IMPLICIT_BIT_32: u32 = 0x0080_0000;

/// The biased exponent field of a pattern.
pub open spec fn exp_field_32(b: u32) -> u32 {
    abs_bits_32(b) / IMPLICIT_BIT_32
}

/// The fraction field of a pattern.
pub open spec fn frac_field_32(b: u32) -> u32 {
    abs_bits_32(b) % IMPLICIT_BIT_32
}

/// The magnitude a pattern encodes, in units of the smallest subnormal
/// (2 to the power of -149 for this width). A subnormal pattern has no
/// implicit leading bit; a normal one prepends it and scales by the biased
/// exponent. The patterns for infinity continue the same formula, which
/// places each infinity beyond every finite magnitude.
pub open spec fn magnitude_32(b: u32) -> int {
    if exp_field_32(b) == 0 {
        frac_field_32(b) as int
    } else {
        (frac_field_32(b) + IMPLICIT_BIT_32) * pow2((exp_field_32(b) - 1) as nat)
    }
}

/// The signed number a non-NaN pattern encodes, in units of the smallest
/// subnormal. Both zeros encode 0, and the two infinities stand above and
/// below every finite value.
pub open spec fn value_32(b: u32) -> int {
    if b >= SIGN_BIT_32 {
        -magnitude_32(b)
    } else {
        magnitude_32(b)
    }
}

/// A 32-bit IEEE-754 value held as its raw bit pattern, compared and hashed
/// under the total order: NaN equals NaN and sorts below everything else,
/// and the two zeros are equal.
#[derive(Clone, Copy, Debug)]
pub struct F32(pub u32);

impl F32 {
    /// Wraps a raw bit pattern. Total and lossless: every pattern, NaN
    /// payloads, both infinities, both zeros and subnormals included, is
    /// representable.
    pub fn from_bits(bits: u32) -> (r: F32)
        ensures
            r.0 == bits,
    {
        F32(bits)
    }

    /// Returns the raw bit pattern unchanged.
    pub fn to_bits(&self) -> (r: u32)
        ensures
            r == self.0,
    {
        self.0
    }

    /// Whether the held pattern encodes NaN.
    pub fn is_nan(&self) -> (r: bool)
        ensures
            r == is_nan_32(self.0),
    {
        let abs: u32 = if self.0 >= SIGN_BIT_32 {
            self.0 - SIGN_BIT_32
        } else {
            self.0
        };
        abs > INF_BITS_32
    }

    /// Three-way comparison under the total order. Where the native partial
    /// comparison is defined it is used unchanged; where it is not, NaN is
    /// less than every non-NaN value and equal to NaN. Always resolves.
    pub fn cmp(&self, other: &F32) -> (r: Ordering)
        ensures
            r == total_cmp_32(self.0, other.0),
    {
        let a_nan = self.is_nan();
        let b_nan = other.is_nan();
        if a_nan || b_nan {
            if a_nan && !b_nan {
                Ordering::Less
            } else if !a_nan && b_nan {
                Ordering::Greater
            } else {
                Ordering::Equal
            }
        } else {
            let ra = rank_exec_32(self.0);
            let rb = rank_exec_32(other.0);
            if ra < rb {
                Ordering::Less
            } else if ra == rb {
                Ordering::Equal
            } else {
                Ordering::Greater
            }
        }
    }

    /// The canonical pattern to feed a hasher: every NaN hashes from one
    /// fixed quiet-NaN pattern and both zeros from the positive-zero pattern,
    /// so that values equal under this type hash equally; any other value
    /// hashes from its own bits.
    pub fn hash_bits(&self) -> (r: u32)
        ensures
            r == canonical_bits_32(self.0),
    {
        if self.is_nan() {
            CANONICAL_NAN_32
        } else if self.is_zero() {
            0u32
        } else {
            self.0
        }
    }

    /// Whether the held pattern encodes a zero, of either sign.
    pub fn is_zero(&self) -> (r: bool)
        ensures
            r == is_zero_32(self.0),
    {
        self.0 == 0 || self.0 == SIGN_BIT_32
    }
}

/// Computes the rank of a bit pattern.
fn rank_exec_32(b: u32) -> (r: u32)
    ensures
        r == rank_32(b),
{
    if b == 0 || b == SIGN_BIT_32 {
        SIGN_BIT_32
    } else if b < SIGN_BIT_32 {
        b + SIGN_BIT_32
    } else {
        u32::MAX - b
    }
}

impl PartialEq for F32 {
    fn eq(&self, other: &F32) -> (r: bool) {
        let a_nan = self.is_nan();
        let b_nan = other.is_nan();
        if a_nan || b_nan {
            a_nan && b_nan
        } else {
            rank_exec_32(self.0) == rank_exec_32(other.0)
        }
    }
}

impl vstd::std_specs::cmp::PartialEqSpecImpl for F32 {
    open spec fn obeys_eq_spec() -> bool {
        true
    }

    open spec fn eq_spec(&self, other: &F32) -> bool {
        eq_32(self.0, other.0)
    }
}

impl Eq for F32 {}

impl PartialOrd for F32 {
    /// The partial comparison of this type is total: it always returns a
    /// result, because the NaN cases are fully resolved by the total order.
    fn partial_cmp(&self, other: &F32) -> (r: Option<Ordering>) {
        Some(self.cmp(other))
    }
}

impl vstd::std_specs::cmp::PartialOrdSpecImpl for F32 {
    open spec fn obeys_partial_cmp_spec() -> bool {
        true
    }

    open spec fn partial_cmp_spec(&self, other: &F32) -> Option<Ordering> {
        Some(total_cmp_32(self.0, other.0))
    }
}

impl Default for F32 {
    /// The default value is positive zero.
    fn default() -> (r: F32)
        ensures
            r.0 == 0,
    {
        F32(0)
    }
}

/// Equality is reflexive: every value equals itself, every NaN pattern
/// included, which native floating-point equality does not grant.
pub proof fn lemma_eq_reflexive_32(a: F32)
    ensures
        eq_32(a.0, a.0),
{
}

/// Any two NaN patterns are equal, whatever payload or sign bit each
/// carries.
pub proof fn lemma_nan_eq_nan_32(a: F32, b: F32)
    requires
        is_nan_32(a.0),
        is_nan_32(b.0),
    ensures
        eq_32(a.0, b.0),
{
}

/// The two signed zeros are equal.
pub proof fn lemma_zero_eq_zero_32(a: F32, b: F32)
    requires
        is_zero_32(a.0),
        is_zero_32(b.0),
    ensures
        eq_32(a.0, b.0),
{
}

/// A NaN never equals a non-NaN value, in either direction.
pub proof fn lemma_nan_ne_non_nan_32(a: F32, b: F32)
    requires
        is_nan_32(a.0),
        !is_nan_32(b.0),
    ensures
        !eq_32(a.0, b.0),
        !eq_32(b.0, a.0),
{
}

/// The order is total: for every pair exactly one of less, equal and greater
/// holds. Comparison returns Equal exactly on equal values, and returns Less
/// exactly where the reversed comparison returns Greater, so no pair is
/// incomparable and none is ordered both ways.
pub proof fn lemma_trichotomy_32(a: F32, b: F32)
    ensures
        total_cmp_32(a.0, b.0) == Ordering::Less || total_cmp_32(a.0, b.0) == Ordering::Equal
            || total_cmp_32(a.0, b.0) == Ordering::Greater,
        (total_cmp_32(a.0, b.0) == Ordering::Equal) <==> eq_32(a.0, b.0),
        (total_cmp_32(a.0, b.0) == Ordering::Less) <==> (total_cmp_32(b.0, a.0)
            == Ordering::Greater),
{
}

/// The order is transitive.
pub proof fn lemma_lt_transitive_32(a: F32, b: F32, c: F32)
    requires
        total_cmp_32(a.0, b.0) == Ordering::Less,
        total_cmp_32(b.0, c.0) == Ordering::Less,
    ensures
        total_cmp_32(a.0, c.0) == Ordering::Less,
{
}

/// NaN is the minimum of the order: it compares below every non-NaN value,
/// negative infinity included, and symmetrically every non-NaN value
/// compares above NaN.
pub proof fn lemma_nan_is_minimum_32(a: F32, b: F32)
    requires
        is_nan_32(a.0),
        !is_nan_32(b.0),
    ensures
        total_cmp_32(a.0, b.0) == Ordering::Less,
        total_cmp_32(b.0, a.0) == Ordering::Greater,
{
}

/// On non-NaN operands the total order agrees with the native partial order
/// exactly: wherever the native comparison is defined, the total comparison
/// returns the same result.
pub proof fn lemma_order_matches_native_32(a: F32, b: F32)
    requires
        !is_nan_32(a.0),
        !is_nan_32(b.0),
    ensures
        native_cmp_32(a.0, b.0) == Some(total_cmp_32(a.0, b.0)),
{
}

/// Hashing is consistent with equality: values equal under this type hash
/// from the same canonical bit pattern.
pub proof fn lemma_hash_consistent_with_eq_32(a: F32, b: F32)
    requires
        eq_32(a.0, b.0),
    ensures
        canonical_bits_32(a.0) == canonical_bits_32(b.0),
{
}

/// Splits a magnitude pattern into its exponent and fraction fields.
proof fn lemma_fields_32(p: u32)
    requires
        p < SIGN_BIT_32,
    ensures
        p == exp_field_32(p) * IMPLICIT_BIT_32 + frac_field_32(p),
        frac_field_32(p) < IMPLICIT_BIT_32,
        p <= INF_BITS_32 ==> exp_field_32(p) <= 255,
{
    lemma_fundamental_div_mod(p as int, IMPLICIT_BIT_32 as int);
}

/// The magnitude of a nonzero pattern is positive.
proof fn lemma_magnitude_pos_32(p: u32)
    requires
        0 < p < SIGN_BIT_32,
    ensures
        magnitude_32(p) > 0,
{
    lemma_fields_32(p);
    let k: int = IMPLICIT_BIT_32 as int;
    let e = exp_field_32(p) as int;
    let f = frac_field_32(p) as int;
    if e != 0 {
        let q = pow2((e - 1) as nat) as int;
        lemma_pow2_pos((e - 1) as nat);
        lemma_mul_inequality(k, f + k, q);
    }
}

/// The decoded magnitude grows strictly with the magnitude bits: a larger
/// non-NaN magnitude pattern encodes a strictly larger magnitude.
proof fn lemma_magnitude_strictly_monotone_32(p1: u32, p2: u32)
    requires
        p1 < p2,
        p2 <= INF_BITS_32,
    ensures
        magnitude_32(p1) < magnitude_32(p2),
{
    lemma_fields_32(p1);
    lemma_fields_32(p2);
    let k: int = IMPLICIT_BIT_32 as int;
    let e1 = exp_field_32(p1) as int;
    let f1 = frac_field_32(p1) as int;
    let e2 = exp_field_32(p2) as int;
    let f2 = frac_field_32(p2) as int;
    if e1 == e2 {
        if e1 != 0 {
            let q = pow2((e1 - 1) as nat) as int;
            lemma_pow2_pos((e1 - 1) as nat);
            lemma_mul_strict_inequality(f1 + k, f2 + k, q);
        }
    } else {
        let q2 = pow2((e2 - 1) as nat) as int;
        lemma_pow2_pos((e2 - 1) as nat);
        lemma_mul_inequality(k, f2 + k, q2);
        if e1 == 0 {
            // magnitude below the implicit bit against at least the implicit
            // bit at the smallest normal scale
            assert(k * 1 <= k * q2) by {
                lemma_mul_inequality(1, q2, k);
            };
        } else {
            let q1 = pow2((e1 - 1) as nat) as int;
            lemma_pow2_pos((e1 - 1) as nat);
            lemma_mul_inequality(f1 + k, 2 * k - 1, q1);
            lemma_mul_strict_inequality(2 * k - 1, 2 * k, q1);
            lemma_pow2_unfold(e1 as nat);
            assert(2 * k * q1 == k * (2 * q1));
            if e1 < e2 - 1 {
                lemma_pow2_strictly_increases(e1 as nat, (e2 - 1) as nat);
            }
            assert(k * pow2(e1 as nat) <= k * q2) by {
                lemma_mul_inequality(pow2(e1 as nat) as int, q2, k);
            };
        }
    }
}

/// The rank order of two non-NaN patterns is the numeric order of the
/// values they encode.
proof fn lemma_rank_lt_iff_value_lt_32(x: u32, y: u32)
    requires
        !is_nan_32(x),
        !is_nan_32(y),
    ensures
        (rank_32(x) < rank_32(y)) <==> (value_32(x) < value_32(y)),
{
    if x < SIGN_BIT_32 && y < SIGN_BIT_32 {
        // both non-negative: rank is the pattern shifted up, value is the
        // magnitude of the pattern itself
        if x < y {
            lemma_magnitude_strictly_monotone_32(x, y);
        } else if y < x {
            lemma_magnitude_strictly_monotone_32(y, x);
        }
    } else if x >= SIGN_BIT_32 && y >= SIGN_BIT_32 {
        // both non-positive: larger patterns carry larger magnitudes, hence
        // smaller values; the ranks reverse the pattern order
        let ax = (x - SIGN_BIT_32) as u32;
        let ay = (y - SIGN_BIT_32) as u32;
        if ax < ay {
            lemma_magnitude_strictly_monotone_32(ax, ay);
        } else if ay < ax {
            lemma_magnitude_strictly_monotone_32(ay, ax);
        }
        if ax > 0 {
            lemma_magnitude_pos_32(ax);
        }
        if ay > 0 {
            lemma_magnitude_pos_32(ay);
        }
    } else if x < SIGN_BIT_32 {
        // x non-negative, y non-positive: x never ranks or values below y
        if x > 0 {
            lemma_magnitude_pos_32(x);
        }
        let ay = (y - SIGN_BIT_32) as u32;
        if ay > 0 {
            lemma_magnitude_pos_32(ay);
        }
    } else {
        // x non-positive, y non-negative: x ranks and values below y unless
        // both are zeros
        let ax = (x - SIGN_BIT_32) as u32;
        if ax > 0 {
            lemma_magnitude_pos_32(ax);
        }
        if y > 0 {
            lemma_magnitude_pos_32(y);
        }
    }
}

/// On non-NaN operands the order of this type is exactly the numeric order
/// of the encoded values: comparison returns Less exactly when the first
/// operand encodes the smaller number, and Equal exactly when both encode
/// the same number — so equality of the wrapper is numeric equality, which
/// identifies the two zeros and nothing else.
pub proof fn lemma_order_is_numeric_32(a: F32, b: F32)
    requires
        !is_nan_32(a.0),
        !is_nan_32(b.0),
    ensures
        (total_cmp_32(a.0, b.0) == Ordering::Less) <==> value_32(a.0) < value_32(b.0),
        (total_cmp_32(a.0, b.0) == Ordering::Greater) <==> value_32(a.0) > value_32(b.0),
        eq_32(a.0, b.0) <==> value_32(a.0) == value_32(b.0),
{
    lemma_rank_lt_iff_value_lt_32(a.0, b.0);
    lemma_rank_lt_iff_value_lt_32(b.0, a.0);
}

} // verus!
