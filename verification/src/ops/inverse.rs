use vstd::prelude::*;

use crate::expr::{recip, Expr};
use crate::node::{view_node, Node};

verus! {

/// The reciprocal of a node, held as its operand.
#[derive(Debug, PartialEq)]
pub struct Inverse {
    pub val: Box<Node>,
}

impl View for Inverse {
    type V = Expr;

    /// `1 / val`, the power `val ^ -1`.
    open spec fn view(&self) -> Expr {
        recip(view_node(*self.val))
    }
}

impl Inverse {
    /// The reciprocal of `val`.
    pub fn new(val: Node) -> (r: Inverse)
        ensures
            *r.val == val,
            r@ == recip(val@),
    {
        Inverse { val: Box::new(val) }
    }
}

} // verus!
