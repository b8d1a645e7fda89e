use vstd::prelude::*;

use crate::constant::Constant;
use crate::node::{duplicate_all, view_node, Node};
use crate::ops::{Addition, Log, Multiplication, Negation, Power, Variable};
use crate::visitors::constant_folder::opt_view;
use crate::visitors::evaluator::{context_depth, eval, Evaluator};

verus! {

/// An operation on expression trees, given for each kind of node.
pub trait Visitor {
    type Output;

    fn build_log(&self, n: &Log) -> Self::Output;

    fn build_power(&self, n: &Power) -> Self::Output;

    fn build_negation(&self, n: &Negation) -> Self::Output;

    fn build_addition(&self, n: &Addition) -> Self::Output;

    fn build_constant(&self, c: &Constant) -> Self::Output;

    fn build_variable(&self, v: &Variable) -> Self::Output;

    fn build_multiplication(&self, n: &Multiplication) -> Self::Output;
}

impl Node {
    /// What `visitor` builds for this node: the method for the node's kind,
    /// applied to the node's contents.
    pub fn accept_visitor<V: Visitor>(&self, visitor: &V) -> (r: V::Output)
        ensures
            match self {
                Node::Log(n) => call_ensures(V::build_log, (visitor, n), r),
                Node::Power(n) => call_ensures(V::build_power, (visitor, n), r),
                Node::Negation(n) => call_ensures(V::build_negation, (visitor, n), r),
                Node::Addition(n) => call_ensures(V::build_addition, (visitor, n), r),
                Node::Constant(c) => call_ensures(V::build_constant, (visitor, c), r),
                Node::Variable(v) => call_ensures(V::build_variable, (visitor, v), r),
                Node::Multiplication(n) => call_ensures(V::build_multiplication, (visitor, n), r),
            },
    {
        match self {
            Node::Log(n) => visitor.build_log(n),
            Node::Power(n) => visitor.build_power(n),
            Node::Negation(n) => visitor.build_negation(n),
            Node::Addition(n) => visitor.build_addition(n),
            Node::Constant(c) => visitor.build_constant(c),
            Node::Variable(v) => visitor.build_variable(v),
            Node::Multiplication(n) => visitor.build_multiplication(n),
        }
    }
}

/// The evaluator as a visitor: each node with the variables that have values
/// replaced, `None` where evaluating fails (see `Evaluator::try_evaluate`).
impl<'a> Visitor for Evaluator<'a> {
    type Output = Option<Node>;

    fn build_log(&self, n: &Log) -> (r: Option<Node>)
        ensures
            opt_view(r) == eval(view_node(Node::Log(*n)), self.variables.view().values, context_depth(self.variables)),
    {
        let node = Node::Log(Log { val: Box::new(n.val.duplicate()) });
        Evaluator::try_evaluate(&node, self.variables)
    }

    fn build_power(&self, n: &Power) -> (r: Option<Node>)
        ensures
            opt_view(r) == eval(view_node(Node::Power(*n)), self.variables.view().values, context_depth(self.variables)),
    {
        let node = Node::Power(Power { val: Box::new(n.val.duplicate()), exponent: Box::new(n.exponent.duplicate()) });
        Evaluator::try_evaluate(&node, self.variables)
    }

    fn build_negation(&self, n: &Negation) -> (r: Option<Node>)
        ensures
            opt_view(r) == eval(view_node(Node::Negation(*n)), self.variables.view().values, context_depth(self.variables)),
    {
        let node = Node::Negation(Negation { val: Box::new(n.val.duplicate()) });
        Evaluator::try_evaluate(&node, self.variables)
    }

    fn build_addition(&self, n: &Addition) -> (r: Option<Node>)
        ensures
            opt_view(r) == eval(view_node(Node::Addition(*n)), self.variables.view().values, context_depth(self.variables)),
    {
        let node = Node::Addition(Addition { members: duplicate_all(&n.members) });
        Evaluator::try_evaluate(&node, self.variables)
    }

    fn build_constant(&self, c: &Constant) -> (r: Option<Node>)
        ensures
            opt_view(r) == eval(view_node(Node::Constant(*c)), self.variables.view().values, context_depth(self.variables)),
    {
        Evaluator::try_evaluate(&Node::Constant(*c), self.variables)
    }

    fn build_variable(&self, v: &Variable) -> (r: Option<Node>)
        ensures
            opt_view(r) == eval(view_node(Node::Variable(*v)), self.variables.view().values, context_depth(self.variables)),
    {
        Evaluator::try_evaluate(&Node::Variable(*v), self.variables)
    }

    fn build_multiplication(&self, n: &Multiplication) -> (r: Option<Node>)
        ensures
            opt_view(r) == eval(view_node(Node::Multiplication(*n)), self.variables.view().values, context_depth(self.variables)),
    {
        let node = Node::Multiplication(Multiplication { members: duplicate_all(&n.members) });
        Evaluator::try_evaluate(&node, self.variables)
    }
}

} // verus!
