use vstd::prelude::*;

use crate::binary64::shows;
use crate::text::{int_text, push_int};

verus! {

/// Bit pattern (IEEE-754 binary64) of Euler's number, the value `std::f64::consts::E` has.
pub const E_BITS: u64 = 0x4005_BF0A_8B14_5769;

/// Bit pattern (IEEE-754 binary64) of pi, the value `std::f64::consts::PI` has.
pub const PI_BITS: u64 = 0x4009_21FB_5444_2D18;

/// A numeric leaf of an expression.
///
/// A floating-point constant is carried by its IEEE-754 binary64 bit pattern:
/// the library never computes with it itself, it hands it to the float
/// arithmetic its caller supplies (see `FloatOp`).
#[derive(Clone, Copy, Debug, PartialEq, Eq, Structural)]
pub enum Constant {
    Fp(u64),
    Int(i64),
    E,
    Pi,
}

impl Constant {
    /// An integer constant.
    pub fn new(value: i64) -> (c: Constant)
        ensures
            c == Constant::Int(value),
    {
        Constant::Int(value)
    }

    /// A floating-point constant, given by its binary64 bit pattern.
    pub fn from_bits(bits: u64) -> (c: Constant)
        ensures
            c == Constant::Fp(bits),
    {
        Constant::Fp(bits)
    }

    /// The binary64 bit pattern of a constant that is not an integer;
    /// `None` for an integer, whose conversion is float arithmetic.
    pub fn float_bits(self) -> (r: Option<u64>)
        ensures
            r == spec_float_bits(self),
    {
        match self {
            Constant::Fp(b) => Some(b),
            Constant::Int(_) => None,
            Constant::E => Some(E_BITS),
            Constant::Pi => Some(PI_BITS),
        }
    }

    /// The text of this constant: an integer in decimal, anything else as
    /// `show` writes its float value.
    pub fn to_string<H: Fn(u64) -> String>(&self, show: &H) -> (r: String)
        requires
            forall|b: u64| call_requires(*show, (b,)),
        ensures
            forall|text: spec_fn(u64) -> Seq<char>| #[trigger]
                shows(*show, text) ==> r@ == const_text(*self, text),
    {
        match *self {
            Constant::Int(i) => {
                let mut s = String::new();
                push_int(&mut s, i);
                assert(s@ =~= int_text(i as int));
                s
            },
            Constant::Fp(b) => show(b),
            Constant::E => show(E_BITS),
            Constant::Pi => show(PI_BITS),
        }
    }
}

/// The text of a constant: an integer in decimal, anything else as `text` writes
/// its float value.
pub open spec fn const_text(c: Constant, text: spec_fn(u64) -> Seq<char>) -> Seq<char> {
    match c {
        Constant::Int(i) => int_text(i as int),
        Constant::Fp(b) => text(b),
        Constant::E => text(E_BITS),
        Constant::Pi => text(PI_BITS),
    }
}

pub open spec fn spec_float_bits(c: Constant) -> Option<u64> {
    match c {
        Constant::Fp(b) => Some(b),
        Constant::Int(_) => None,
        Constant::E => Some(E_BITS),
        Constant::Pi => Some(PI_BITS),
    }
}

} // verus!
