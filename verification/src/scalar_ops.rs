use vstd::prelude::*;

use vstd::std_specs::ops::{AddSpecImpl, BitXorSpecImpl, DivSpecImpl, MulSpecImpl, NegSpecImpl, SubSpecImpl};

use crate::constant::Constant;
use crate::expr::{int_const, pow, product, sum};
use crate::node::{view_node, Node};
use crate::ops::{Addition, Multiplication, Negation, Power};

verus! {

impl std::ops::Add<i64> for Node {
    type Output = Node;

    /// The sum of a node and an integer constant.
    fn add(self, rhs: i64) -> (r: Node)
        ensures
            r@ == sum(self@, int_const(rhs), false),
    {
        Node::Addition(Addition::from_binary::<false>(self, Node::Constant(Constant::Int(rhs))))
    }
}

impl AddSpecImpl<i64> for Node {
    open spec fn obeys_add_spec() -> bool {
        false
    }

    open spec fn add_req(self, rhs: i64) -> bool {
        !(self@ is Add)
    }

    open spec fn add_spec(self, rhs: i64) -> Node {
        Node::Constant(Constant::Int(0))
    }
}

impl std::ops::Add<Node> for i64 {
    type Output = Node;

    /// The sum of an integer constant and a node.
    fn add(self, rhs: Node) -> (r: Node)
        ensures
            r@ == sum(int_const(self), rhs@, false),
    {
        Node::Addition(Addition::from_binary::<false>(Node::Constant(Constant::Int(self)), rhs))
    }
}

impl AddSpecImpl<Node> for i64 {
    open spec fn obeys_add_spec() -> bool {
        false
    }

    open spec fn add_req(self, rhs: Node) -> bool {
        !(rhs@ is Add)
    }

    open spec fn add_spec(self, rhs: Node) -> Node {
        Node::Constant(Constant::Int(0))
    }
}

impl std::ops::Sub<i64> for Node {
    type Output = Node;

    /// The difference of a node and an integer constant.
    fn sub(self, rhs: i64) -> (r: Node)
        ensures
            r@ == sum(self@, int_const(rhs), true),
    {
        Node::Addition(Addition::from_binary::<true>(self, Node::Constant(Constant::Int(rhs))))
    }
}

impl SubSpecImpl<i64> for Node {
    open spec fn obeys_sub_spec() -> bool {
        false
    }

    open spec fn sub_req(self, rhs: i64) -> bool {
        !(self@ is Add)
    }

    open spec fn sub_spec(self, rhs: i64) -> Node {
        Node::Constant(Constant::Int(0))
    }
}

impl std::ops::Sub<Node> for i64 {
    type Output = Node;

    /// The difference of an integer constant and a node.
    fn sub(self, rhs: Node) -> (r: Node)
        ensures
            r@ == sum(int_const(self), rhs@, true),
    {
        Node::Addition(Addition::from_binary::<true>(Node::Constant(Constant::Int(self)), rhs))
    }
}

impl SubSpecImpl<Node> for i64 {
    open spec fn obeys_sub_spec() -> bool {
        false
    }

    open spec fn sub_req(self, rhs: Node) -> bool {
        true
    }

    open spec fn sub_spec(self, rhs: Node) -> Node {
        Node::Constant(Constant::Int(0))
    }
}

impl std::ops::Mul<i64> for Node {
    type Output = Node;

    /// The product of a node and an integer constant.
    fn mul(self, rhs: i64) -> (r: Node)
        ensures
            r@ == product(self@, int_const(rhs), false),
    {
        Node::Multiplication(Multiplication::from_binary::<false>(self, Node::Constant(Constant::Int(rhs))))
    }
}

impl MulSpecImpl<i64> for Node {
    open spec fn obeys_mul_spec() -> bool {
        false
    }

    open spec fn mul_req(self, rhs: i64) -> bool {
        true
    }

    open spec fn mul_spec(self, rhs: i64) -> Node {
        Node::Constant(Constant::Int(0))
    }
}

impl std::ops::Mul<Node> for i64 {
    type Output = Node;

    /// The product of an integer constant and a node.
    fn mul(self, rhs: Node) -> (r: Node)
        ensures
            r@ == product(int_const(self), rhs@, false),
    {
        Node::Multiplication(Multiplication::from_binary::<false>(Node::Constant(Constant::Int(self)), rhs))
    }
}

impl MulSpecImpl<Node> for i64 {
    open spec fn obeys_mul_spec() -> bool {
        false
    }

    open spec fn mul_req(self, rhs: Node) -> bool {
        true
    }

    open spec fn mul_spec(self, rhs: Node) -> Node {
        Node::Constant(Constant::Int(0))
    }
}

impl std::ops::Div<i64> for Node {
    type Output = Node;

    /// The quotient of a node and an integer constant.
    fn div(self, rhs: i64) -> (r: Node)
        ensures
            r@ == product(self@, int_const(rhs), true),
    {
        Node::Multiplication(Multiplication::from_binary::<true>(self, Node::Constant(Constant::Int(rhs))))
    }
}

impl DivSpecImpl<i64> for Node {
    open spec fn obeys_div_spec() -> bool {
        false
    }

    open spec fn div_req(self, rhs: i64) -> bool {
        true
    }

    open spec fn div_spec(self, rhs: i64) -> Node {
        Node::Constant(Constant::Int(0))
    }
}

impl std::ops::Div<Node> for i64 {
    type Output = Node;

    /// The quotient of an integer constant and a node.
    fn div(self, rhs: Node) -> (r: Node)
        ensures
            r@ == product(int_const(self), rhs@, true),
    {
        Node::Multiplication(Multiplication::from_binary::<true>(Node::Constant(Constant::Int(self)), rhs))
    }
}

impl DivSpecImpl<Node> for i64 {
    open spec fn obeys_div_spec() -> bool {
        false
    }

    open spec fn div_req(self, rhs: Node) -> bool {
        true
    }

    open spec fn div_spec(self, rhs: Node) -> Node {
        Node::Constant(Constant::Int(0))
    }
}

impl std::ops::BitXor<i64> for Node {
    type Output = Node;

    /// The power of a node and an integer constant.
    fn bitxor(self, rhs: i64) -> (r: Node)
        ensures
            r@ == pow(self@, int_const(rhs)),
    {
        Node::Power(Power::from_binary::<false>(self, Node::Constant(Constant::Int(rhs))))
    }
}

impl BitXorSpecImpl<i64> for Node {
    open spec fn obeys_bitxor_spec() -> bool {
        false
    }

    open spec fn bitxor_req(self, rhs: i64) -> bool {
        true
    }

    open spec fn bitxor_spec(self, rhs: i64) -> Node {
        Node::Constant(Constant::Int(0))
    }
}

impl std::ops::BitXor<Node> for i64 {
    type Output = Node;

    /// The power of an integer constant and a node.
    fn bitxor(self, rhs: Node) -> (r: Node)
        ensures
            r@ == pow(int_const(self), rhs@),
    {
        Node::Power(Power::from_binary::<false>(Node::Constant(Constant::Int(self)), rhs))
    }
}

impl BitXorSpecImpl<Node> for i64 {
    open spec fn obeys_bitxor_spec() -> bool {
        false
    }

    open spec fn bitxor_req(self, rhs: Node) -> bool {
        true
    }

    open spec fn bitxor_spec(self, rhs: Node) -> Node {
        Node::Constant(Constant::Int(0))
    }
}

impl std::ops::Neg for Negation {
    type Output = Node;

    /// The negated node itself: the negation taken off.
    fn neg(self) -> (r: Node)
        ensures
            r@ == view_node(*self.val),
    {
        *self.val
    }
}

impl NegSpecImpl for Negation {
    open spec fn obeys_neg_spec() -> bool {
        false
    }

    open spec fn neg_req(self) -> bool {
        true
    }

    open spec fn neg_spec(self) -> Node {
        *self.val
    }
}

} // verus!
