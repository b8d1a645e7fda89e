use vstd::prelude::*;

use crate::expr::{neg, Expr};
use crate::node::{view_node, Node};

verus! {

/// `-val`.
#[derive(Debug, PartialEq)]
pub struct Negation {
    pub val: Box<Node>,
}

impl View for Negation {
    type V = Expr;

    open spec fn view(&self) -> Expr {
        Expr::Neg(Box::new(view_node(*self.val)))
    }
}

impl Negation {
    pub fn new(val: Node) -> (r: Negation)
        ensures
            r@ == neg(val@),
    {
        Negation { val: Box::new(val) }
    }
}

} // verus!
