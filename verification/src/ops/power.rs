use vstd::prelude::*;

use crate::constant::{Constant, E_BITS};
use crate::expr::{pow, recip, Expr};
use crate::node::{view_node, Node};

verus! {

/// `val ^ exponent`.
#[derive(Debug, PartialEq)]
pub struct Power {
    pub val: Box<Node>,
    pub exponent: Box<Node>,
}

impl View for Power {
    type V = Expr;

    open spec fn view(&self) -> Expr {
        Expr::Pow(Box::new(view_node(*self.val)), Box::new(view_node(*self.exponent)))
    }
}

impl Power {
    pub fn new(val: Node, exponent: Node) -> (p: Power)
        ensures
            p@ == pow(val@, exponent@),
    {
        Power { val: Box::new(val), exponent: Box::new(exponent) }
    }

    /// `val ^ -1`, the reciprocal of `val`.
    pub fn inverse(val: Node) -> (p: Power)
        ensures
            p@ == recip(val@),
    {
        Power { val: Box::new(val), exponent: Box::new(Node::Constant(Constant::Int(-1))) }
    }

    /// `e ^ x`, with `e` as the floating-point constant.
    pub fn exp(x: Node) -> (p: Power)
        ensures
            p@ == pow(Expr::Const(Constant::Fp(E_BITS)), x@),
    {
        Power { val: Box::new(Node::Constant(Constant::Fp(E_BITS))), exponent: Box::new(x) }
    }

    /// `lhs ^ rhs`; powers are never flattened, so both operator forms agree.
    pub fn from_binary<const INVERSE_OP: bool>(lhs: Node, rhs: Node) -> (p: Power)
        ensures
            p@ == pow(lhs@, rhs@),
    {
        Power { val: Box::new(lhs), exponent: Box::new(rhs) }
    }

    /// `self ^ rhs`.
    pub fn append<const INVERSE_OP: bool>(self, rhs: Node) -> (p: Power)
        ensures
            p@ == pow(self@, rhs@),
    {
        Power { val: Box::new(Node::Power(self)), exponent: Box::new(rhs) }
    }

    /// `lhs ^ self`.
    pub fn prepend<const INVERSE_OP: bool>(self, lhs: Node) -> (p: Power)
        ensures
            p@ == pow(lhs@, self@),
    {
        Power { val: Box::new(lhs), exponent: Box::new(Node::Power(self)) }
    }

    /// `lhs ^ rhs` for two powers.
    pub fn fuse<const INVERSE_OP: bool>(lhs: Power, rhs: Power) -> (p: Power)
        ensures
            p@ == pow(lhs@, rhs@),
    {
        Power { val: Box::new(Node::Power(lhs)), exponent: Box::new(Node::Power(rhs)) }
    }
}

} // verus!
