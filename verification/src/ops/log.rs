use vstd::prelude::*;

use crate::expr::{Expr};
use crate::node::{view_node, Node};

verus! {

/// The logarithm `ln(val)`.
#[derive(Debug, PartialEq)]
pub struct Log {
    pub val: Box<Node>,
}

impl View for Log {
    type V = Expr;

    open spec fn view(&self) -> Expr {
        Expr::Ln(Box::new(view_node(*self.val)))
    }
}

impl Log {
    pub fn new(val: Node) -> (r: Log)
        ensures
            r@ == Expr::Ln(Box::new(val@)),
    {
        Log { val: Box::new(val) }
    }
}

} // verus!
