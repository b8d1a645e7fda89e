use vstd::prelude::*;

verus! {

/// Bit pattern of the binary64 value `0.0`.
pub const ZERO_BITS: u64 = 0;

/// Bit pattern of the binary64 value `1.0`.
pub const ONE_BITS: u64 = 0x3FF0_0000_0000_0000;

/// The sign bit of a binary64 value.
pub const SIGN_BIT: u64 = 0x8000_0000_0000_0000;

/// A floating-point operation the library needs performed, on binary64 bit patterns.
///
/// The library does no floating-point arithmetic itself: wherever the expression
/// algorithms meet a float, they hand one of these requests to an arithmetic
/// function supplied by the caller, which answers with the bit pattern of the
/// IEEE-754 result.
#[derive(Clone, Copy, Debug, PartialEq, Eq, Structural)]
pub enum FloatOp {
    /// The integer converted to binary64 (`i as f64`).
    FromInt(i64),
    /// `a + b`.
    Add(u64, u64),
    /// `a * b`.
    Mul(u64, u64),
    /// `1.0 / a`.
    Recip(u64),
    /// The base-2 logarithm of `a`.
    Log2(u64),
    /// `a` raised to an integer power (`powi`).
    Powi(u64, i32),
    /// `a` raised to a float power (`powf`).
    Powf(u64, u64),
}

/// `arith` computes the mathematical function `sem`: it accepts every request,
/// and whatever a call returns is `sem` of the request.
pub open spec fn computes<F: Fn(FloatOp) -> u64>(arith: F, sem: spec_fn(FloatOp) -> u64) -> bool {
    &&& forall|op: FloatOp| #[trigger] call_requires(arith, (op,))
    &&& forall|op: FloatOp, r: u64| #[trigger] call_ensures(arith, (op,), r) ==> r == sem(op)
}

/// `-x` on a binary64 bit pattern: the sign bit flipped, as IEEE-754 negation does.
pub open spec fn spec_negate_bits(x: u64) -> u64 {
    x ^ SIGN_BIT
}

pub fn negate_bits(x: u64) -> (r: u64)
    ensures
        r == spec_negate_bits(x),
{
    x ^ SIGN_BIT
}

/// `to_int` computes the conversion `sem` from binary64 bit patterns to integers:
/// it accepts every bit pattern, and whatever a call returns is `sem` of it.
pub open spec fn converts<G: Fn(u64) -> i64>(to_int: G, sem: spec_fn(u64) -> i64) -> bool {
    &&& forall|b: u64| #[trigger] call_requires(to_int, (b,))
    &&& forall|b: u64, r: i64| #[trigger] call_ensures(to_int, (b,), r) ==> r == sem(b)
}

/// `show` writes every binary64 bit pattern `b` as the text `sem(b)`.
pub open spec fn shows<H: Fn(u64) -> String>(show: H, sem: spec_fn(u64) -> Seq<char>) -> bool {
    &&& forall|b: u64| #[trigger] call_requires(show, (b,))
    &&& forall|b: u64, r: String| #[trigger] call_ensures(show, (b,), r) ==> r@ == sem(b)
}

} // verus!
