use vstd::prelude::*;

use vstd::std_specs::ops::{AddSpecImpl, BitXorSpecImpl, DivSpecImpl, MulSpecImpl, NegSpecImpl, SubSpecImpl};

use crate::constant::Constant;
use crate::expr::{int_const, inverted, neg, negated, pow, product, recip, sum, sum_into, Expr};
use crate::node::{view_node, view_seq, Node};
use crate::operators::accumulate;
use crate::ops::{Addition, Log, Multiplication, Negation, Power, Variable};

verus! {

impl std::ops::Add<&Node> for &Node {
    type Output = Node;

    /// The sum of copies of both operands.
    fn add(self, rhs: &Node) -> (r: Node)
        ensures
            r@ == sum(self@, rhs@, false),
    {
        let l: Node = self.duplicate();
        let r: Node = rhs.duplicate();
        l + r
    }
}

impl AddSpecImpl<&Node> for &Node {
    open spec fn obeys_add_spec() -> bool {
        false
    }

    open spec fn add_req(self, rhs: &Node) -> bool {
        !(self@ is Add) && !(rhs@ is Add)
    }

    open spec fn add_spec(self, rhs: &Node) -> Node {
        Node::Constant(Constant::Int(0))
    }
}

impl std::ops::Add<&Node> for Node {
    type Output = Node;

    /// The sum of copies of both operands.
    fn add(self, rhs: &Node) -> (r: Node)
        ensures
            r@ == sum(self@, rhs@, false),
    {
        let l: Node = self;
        let r: Node = rhs.duplicate();
        l + r
    }
}

impl AddSpecImpl<&Node> for Node {
    open spec fn obeys_add_spec() -> bool {
        false
    }

    open spec fn add_req(self, rhs: &Node) -> bool {
        !(self@ is Add) && !(rhs@ is Add)
    }

    open spec fn add_spec(self, rhs: &Node) -> Node {
        Node::Constant(Constant::Int(0))
    }
}

impl std::ops::Add<Node> for &Node {
    type Output = Node;

    /// The sum of copies of both operands.
    fn add(self, rhs: Node) -> (r: Node)
        ensures
            r@ == sum(self@, rhs@, false),
    {
        let l: Node = self.duplicate();
        let r: Node = rhs;
        l + r
    }
}

impl AddSpecImpl<Node> for &Node {
    open spec fn obeys_add_spec() -> bool {
        false
    }

    open spec fn add_req(self, rhs: Node) -> bool {
        !(self@ is Add) && !(rhs@ is Add)
    }

    open spec fn add_spec(self, rhs: Node) -> Node {
        Node::Constant(Constant::Int(0))
    }
}

impl std::ops::Sub<&Node> for &Node {
    type Output = Node;

    /// The difference of copies of both operands.
    fn sub(self, rhs: &Node) -> (r: Node)
        ensures
            r@ == sum(self@, rhs@, true),
    {
        let l: Node = self.duplicate();
        let r: Node = rhs.duplicate();
        l - r
    }
}

impl SubSpecImpl<&Node> for &Node {
    open spec fn obeys_sub_spec() -> bool {
        false
    }

    open spec fn sub_req(self, rhs: &Node) -> bool {
        !(self@ is Add)
    }

    open spec fn sub_spec(self, rhs: &Node) -> Node {
        Node::Constant(Constant::Int(0))
    }
}

impl std::ops::Sub<&Node> for Node {
    type Output = Node;

    /// The difference of copies of both operands.
    fn sub(self, rhs: &Node) -> (r: Node)
        ensures
            r@ == sum(self@, rhs@, true),
    {
        let l: Node = self;
        let r: Node = rhs.duplicate();
        l - r
    }
}

impl SubSpecImpl<&Node> for Node {
    open spec fn obeys_sub_spec() -> bool {
        false
    }

    open spec fn sub_req(self, rhs: &Node) -> bool {
        !(self@ is Add)
    }

    open spec fn sub_spec(self, rhs: &Node) -> Node {
        Node::Constant(Constant::Int(0))
    }
}

impl std::ops::Sub<Node> for &Node {
    type Output = Node;

    /// The difference of copies of both operands.
    fn sub(self, rhs: Node) -> (r: Node)
        ensures
            r@ == sum(self@, rhs@, true),
    {
        let l: Node = self.duplicate();
        let r: Node = rhs;
        l - r
    }
}

impl SubSpecImpl<Node> for &Node {
    open spec fn obeys_sub_spec() -> bool {
        false
    }

    open spec fn sub_req(self, rhs: Node) -> bool {
        !(self@ is Add)
    }

    open spec fn sub_spec(self, rhs: Node) -> Node {
        Node::Constant(Constant::Int(0))
    }
}

impl std::ops::Mul<&Node> for &Node {
    type Output = Node;

    /// The product of copies of both operands.
    fn mul(self, rhs: &Node) -> (r: Node)
        ensures
            r@ == product(self@, rhs@, false),
    {
        let l: Node = self.duplicate();
        let r: Node = rhs.duplicate();
        l * r
    }
}

impl MulSpecImpl<&Node> for &Node {
    open spec fn obeys_mul_spec() -> bool {
        false
    }

    open spec fn mul_req(self, rhs: &Node) -> bool {
        true
    }

    open spec fn mul_spec(self, rhs: &Node) -> Node {
        Node::Constant(Constant::Int(0))
    }
}

impl std::ops::Mul<&Node> for Node {
    type Output = Node;

    /// The product of copies of both operands.
    fn mul(self, rhs: &Node) -> (r: Node)
        ensures
            r@ == product(self@, rhs@, false),
    {
        let l: Node = self;
        let r: Node = rhs.duplicate();
        l * r
    }
}

impl MulSpecImpl<&Node> for Node {
    open spec fn obeys_mul_spec() -> bool {
        false
    }

    open spec fn mul_req(self, rhs: &Node) -> bool {
        true
    }

    open spec fn mul_spec(self, rhs: &Node) -> Node {
        Node::Constant(Constant::Int(0))
    }
}

impl std::ops::Mul<Node> for &Node {
    type Output = Node;

    /// The product of copies of both operands.
    fn mul(self, rhs: Node) -> (r: Node)
        ensures
            r@ == product(self@, rhs@, false),
    {
        let l: Node = self.duplicate();
        let r: Node = rhs;
        l * r
    }
}

impl MulSpecImpl<Node> for &Node {
    open spec fn obeys_mul_spec() -> bool {
        false
    }

    open spec fn mul_req(self, rhs: Node) -> bool {
        true
    }

    open spec fn mul_spec(self, rhs: Node) -> Node {
        Node::Constant(Constant::Int(0))
    }
}

impl std::ops::Div<&Node> for &Node {
    type Output = Node;

    /// The quotient of copies of both operands.
    fn div(self, rhs: &Node) -> (r: Node)
        ensures
            r@ == product(self@, rhs@, true),
    {
        let l: Node = self.duplicate();
        let r: Node = rhs.duplicate();
        l / r
    }
}

impl DivSpecImpl<&Node> for &Node {
    open spec fn obeys_div_spec() -> bool {
        false
    }

    open spec fn div_req(self, rhs: &Node) -> bool {
        true
    }

    open spec fn div_spec(self, rhs: &Node) -> Node {
        Node::Constant(Constant::Int(0))
    }
}

impl std::ops::Div<&Node> for Node {
    type Output = Node;

    /// The quotient of copies of both operands.
    fn div(self, rhs: &Node) -> (r: Node)
        ensures
            r@ == product(self@, rhs@, true),
    {
        let l: Node = self;
        let r: Node = rhs.duplicate();
        l / r
    }
}

impl DivSpecImpl<&Node> for Node {
    open spec fn obeys_div_spec() -> bool {
        false
    }

    open spec fn div_req(self, rhs: &Node) -> bool {
        true
    }

    open spec fn div_spec(self, rhs: &Node) -> Node {
        Node::Constant(Constant::Int(0))
    }
}

impl std::ops::Div<Node> for &Node {
    type Output = Node;

    /// The quotient of copies of both operands.
    fn div(self, rhs: Node) -> (r: Node)
        ensures
            r@ == product(self@, rhs@, true),
    {
        let l: Node = self.duplicate();
        let r: Node = rhs;
        l / r
    }
}

impl DivSpecImpl<Node> for &Node {
    open spec fn obeys_div_spec() -> bool {
        false
    }

    open spec fn div_req(self, rhs: Node) -> bool {
        true
    }

    open spec fn div_spec(self, rhs: Node) -> Node {
        Node::Constant(Constant::Int(0))
    }
}

impl std::ops::BitXor<&Node> for &Node {
    type Output = Node;

    /// The power of copies of both operands.
    fn bitxor(self, rhs: &Node) -> (r: Node)
        ensures
            r@ == pow(self@, rhs@),
    {
        let l: Node = self.duplicate();
        let r: Node = rhs.duplicate();
        l ^ r
    }
}

impl BitXorSpecImpl<&Node> for &Node {
    open spec fn obeys_bitxor_spec() -> bool {
        false
    }

    open spec fn bitxor_req(self, rhs: &Node) -> bool {
        true
    }

    open spec fn bitxor_spec(self, rhs: &Node) -> Node {
        Node::Constant(Constant::Int(0))
    }
}

impl std::ops::BitXor<&Node> for Node {
    type Output = Node;

    /// The power of copies of both operands.
    fn bitxor(self, rhs: &Node) -> (r: Node)
        ensures
            r@ == pow(self@, rhs@),
    {
        let l: Node = self;
        let r: Node = rhs.duplicate();
        l ^ r
    }
}

impl BitXorSpecImpl<&Node> for Node {
    open spec fn obeys_bitxor_spec() -> bool {
        false
    }

    open spec fn bitxor_req(self, rhs: &Node) -> bool {
        true
    }

    open spec fn bitxor_spec(self, rhs: &Node) -> Node {
        Node::Constant(Constant::Int(0))
    }
}

impl std::ops::BitXor<Node> for &Node {
    type Output = Node;

    /// The power of copies of both operands.
    fn bitxor(self, rhs: Node) -> (r: Node)
        ensures
            r@ == pow(self@, rhs@),
    {
        let l: Node = self.duplicate();
        let r: Node = rhs;
        l ^ r
    }
}

impl BitXorSpecImpl<Node> for &Node {
    open spec fn obeys_bitxor_spec() -> bool {
        false
    }

    open spec fn bitxor_req(self, rhs: Node) -> bool {
        true
    }

    open spec fn bitxor_spec(self, rhs: Node) -> Node {
        Node::Constant(Constant::Int(0))
    }
}

impl std::ops::Add<Node> for Addition {
    type Output = Node;

    /// This sum with `rhs` taken in as its last member.
    fn add(self, rhs: Node) -> (r: Node)
        ensures
            r@ == Expr::Add(view_seq(self.members@).push(if false { neg(rhs@) } else { rhs@ })),
    {
        Node::Addition(self.append::<false>(rhs))
    }
}

impl AddSpecImpl<Node> for Addition {
    open spec fn obeys_add_spec() -> bool {
        false
    }

    open spec fn add_req(self, rhs: Node) -> bool {
        !(rhs@ is Add)
    }

    open spec fn add_spec(self, rhs: Node) -> Node {
        Node::Constant(Constant::Int(0))
    }
}

impl std::ops::Add<Addition> for Addition {
    type Output = Node;

    /// The members of both sums in one.
    fn add(self, rhs: Addition) -> (r: Node)
        ensures
            r@ == Expr::Add(view_seq(self.members@) + negated(view_seq(rhs.members@), false)),
    {
        Node::Addition(Addition::fuse::<false>(self, rhs))
    }
}

impl AddSpecImpl<Addition> for Addition {
    open spec fn obeys_add_spec() -> bool {
        false
    }

    open spec fn add_req(self, rhs: Addition) -> bool {
        true
    }

    open spec fn add_spec(self, rhs: Addition) -> Node {
        Node::Constant(Constant::Int(0))
    }
}

impl std::ops::Sub<Node> for Addition {
    type Output = Node;

    /// This sum with `rhs` taken in as its last member.
    fn sub(self, rhs: Node) -> (r: Node)
        ensures
            r@ == Expr::Add(view_seq(self.members@).push(if true { neg(rhs@) } else { rhs@ })),
    {
        Node::Addition(self.append::<true>(rhs))
    }
}

impl SubSpecImpl<Node> for Addition {
    open spec fn obeys_sub_spec() -> bool {
        false
    }

    open spec fn sub_req(self, rhs: Node) -> bool {
        true
    }

    open spec fn sub_spec(self, rhs: Node) -> Node {
        Node::Constant(Constant::Int(0))
    }
}

impl std::ops::Sub<Addition> for Addition {
    type Output = Node;

    /// The members of both sums in one.
    fn sub(self, rhs: Addition) -> (r: Node)
        ensures
            r@ == Expr::Add(view_seq(self.members@) + negated(view_seq(rhs.members@), true)),
    {
        Node::Addition(Addition::fuse::<true>(self, rhs))
    }
}

impl SubSpecImpl<Addition> for Addition {
    open spec fn obeys_sub_spec() -> bool {
        false
    }

    open spec fn sub_req(self, rhs: Addition) -> bool {
        true
    }

    open spec fn sub_spec(self, rhs: Addition) -> Node {
        Node::Constant(Constant::Int(0))
    }
}

impl std::ops::Mul<Node> for Multiplication {
    type Output = Node;

    /// This product with `rhs` taken in as its last member.
    fn mul(self, rhs: Node) -> (r: Node)
        ensures
            r@ == Expr::Mul(view_seq(self.members@).push(if false { recip(rhs@) } else { rhs@ })),
    {
        Node::Multiplication(self.append::<false>(rhs))
    }
}

impl MulSpecImpl<Node> for Multiplication {
    open spec fn obeys_mul_spec() -> bool {
        false
    }

    open spec fn mul_req(self, rhs: Node) -> bool {
        !(rhs@ is Mul)
    }

    open spec fn mul_spec(self, rhs: Node) -> Node {
        Node::Constant(Constant::Int(0))
    }
}

impl std::ops::Mul<Multiplication> for Multiplication {
    type Output = Node;

    /// The members of both products in one.
    fn mul(self, rhs: Multiplication) -> (r: Node)
        ensures
            r@ == Expr::Mul(view_seq(self.members@) + inverted(view_seq(rhs.members@), false)),
    {
        Node::Multiplication(Multiplication::fuse::<false>(self, rhs))
    }
}

impl MulSpecImpl<Multiplication> for Multiplication {
    open spec fn obeys_mul_spec() -> bool {
        false
    }

    open spec fn mul_req(self, rhs: Multiplication) -> bool {
        true
    }

    open spec fn mul_spec(self, rhs: Multiplication) -> Node {
        Node::Constant(Constant::Int(0))
    }
}

impl std::ops::Div<Node> for Multiplication {
    type Output = Node;

    /// This product with `rhs` taken in as its last member.
    fn div(self, rhs: Node) -> (r: Node)
        ensures
            r@ == Expr::Mul(view_seq(self.members@).push(if true { recip(rhs@) } else { rhs@ })),
    {
        Node::Multiplication(self.append::<true>(rhs))
    }
}

impl DivSpecImpl<Node> for Multiplication {
    open spec fn obeys_div_spec() -> bool {
        false
    }

    open spec fn div_req(self, rhs: Node) -> bool {
        true
    }

    open spec fn div_spec(self, rhs: Node) -> Node {
        Node::Constant(Constant::Int(0))
    }
}

impl std::ops::Div<Multiplication> for Multiplication {
    type Output = Node;

    /// The members of both products in one.
    fn div(self, rhs: Multiplication) -> (r: Node)
        ensures
            r@ == Expr::Mul(view_seq(self.members@) + inverted(view_seq(rhs.members@), true)),
    {
        Node::Multiplication(Multiplication::fuse::<true>(self, rhs))
    }
}

impl DivSpecImpl<Multiplication> for Multiplication {
    open spec fn obeys_div_spec() -> bool {
        false
    }

    open spec fn div_req(self, rhs: Multiplication) -> bool {
        true
    }

    open spec fn div_spec(self, rhs: Multiplication) -> Node {
        Node::Constant(Constant::Int(0))
    }
}

impl std::ops::BitXor<Node> for Power {
    type Output = Node;

    /// This power raised to `rhs`.
    fn bitxor(self, rhs: Node) -> (r: Node)
        ensures
            r@ == pow(Node::Power(self)@, rhs@),
    {
        Node::Power(self.append::<false>(rhs))
    }
}

impl BitXorSpecImpl<Node> for Power {
    open spec fn obeys_bitxor_spec() -> bool {
        false
    }

    open spec fn bitxor_req(self, rhs: Node) -> bool {
        true
    }

    open spec fn bitxor_spec(self, rhs: Node) -> Node {
        Node::Constant(Constant::Int(0))
    }
}

impl std::ops::BitXor<Power> for Power {
    type Output = Node;

    /// This power raised to the power `rhs`.
    fn bitxor(self, rhs: Power) -> (r: Node)
        ensures
            r@ == pow(Node::Power(self)@, Node::Power(rhs)@),
    {
        Node::Power(Power::fuse::<false>(self, rhs))
    }
}

impl BitXorSpecImpl<Power> for Power {
    open spec fn obeys_bitxor_spec() -> bool {
        false
    }

    open spec fn bitxor_req(self, rhs: Power) -> bool {
        true
    }

    open spec fn bitxor_spec(self, rhs: Power) -> Node {
        Node::Constant(Constant::Int(0))
    }
}

impl std::ops::Neg for Addition {
    type Output = Node;

    /// The negation of this node.
    fn neg(self) -> (r: Node)
        ensures
            r@ == neg(view_node(Node::Addition(self))),
    {
        Node::Negation(Negation::new(Node::Addition(self)))
    }
}

impl NegSpecImpl for Addition {
    open spec fn obeys_neg_spec() -> bool {
        false
    }

    open spec fn neg_req(self) -> bool {
        true
    }

    open spec fn neg_spec(self) -> Node {
        Node::Constant(Constant::Int(0))
    }
}

impl std::ops::Neg for Multiplication {
    type Output = Node;

    /// The negation of this node.
    fn neg(self) -> (r: Node)
        ensures
            r@ == neg(view_node(Node::Multiplication(self))),
    {
        Node::Negation(Negation::new(Node::Multiplication(self)))
    }
}

impl NegSpecImpl for Multiplication {
    open spec fn obeys_neg_spec() -> bool {
        false
    }

    open spec fn neg_req(self) -> bool {
        true
    }

    open spec fn neg_spec(self) -> Node {
        Node::Constant(Constant::Int(0))
    }
}

impl std::ops::Neg for Power {
    type Output = Node;

    /// The negation of this node.
    fn neg(self) -> (r: Node)
        ensures
            r@ == neg(view_node(Node::Power(self))),
    {
        Node::Negation(Negation::new(Node::Power(self)))
    }
}

impl NegSpecImpl for Power {
    open spec fn obeys_neg_spec() -> bool {
        false
    }

    open spec fn neg_req(self) -> bool {
        true
    }

    open spec fn neg_spec(self) -> Node {
        Node::Constant(Constant::Int(0))
    }
}

impl std::ops::Neg for Variable {
    type Output = Node;

    /// The negation of this node.
    fn neg(self) -> (r: Node)
        ensures
            r@ == neg(view_node(Node::Variable(self))),
    {
        Node::Negation(Negation::new(Node::Variable(self)))
    }
}

impl NegSpecImpl for Variable {
    open spec fn obeys_neg_spec() -> bool {
        false
    }

    open spec fn neg_req(self) -> bool {
        true
    }

    open spec fn neg_spec(self) -> Node {
        Node::Constant(Constant::Int(0))
    }
}

impl std::ops::Neg for Constant {
    type Output = Node;

    /// The negation of this node.
    fn neg(self) -> (r: Node)
        ensures
            r@ == neg(view_node(Node::Constant(self))),
    {
        Node::Negation(Negation::new(Node::Constant(self)))
    }
}

impl NegSpecImpl for Constant {
    open spec fn obeys_neg_spec() -> bool {
        false
    }

    open spec fn neg_req(self) -> bool {
        true
    }

    open spec fn neg_spec(self) -> Node {
        Node::Constant(Constant::Int(0))
    }
}

impl std::ops::Neg for Log {
    type Output = Node;

    /// The negation of this node.
    fn neg(self) -> (r: Node)
        ensures
            r@ == neg(view_node(Node::Log(self))),
    {
        Node::Negation(Negation::new(Node::Log(self)))
    }
}

impl NegSpecImpl for Log {
    open spec fn obeys_neg_spec() -> bool {
        false
    }

    open spec fn neg_req(self) -> bool {
        true
    }

    open spec fn neg_spec(self) -> Node {
        Node::Constant(Constant::Int(0))
    }
}

impl std::ops::Neg for &Node {
    type Output = Node;

    /// The negation of a copy of this node.
    fn neg(self) -> (r: Node)
        ensures
            r@ == neg(self@),
    {
        Node::Negation(Negation::new(self.duplicate()))
    }
}

impl NegSpecImpl for &Node {
    open spec fn obeys_neg_spec() -> bool {
        false
    }

    open spec fn neg_req(self) -> bool {
        true
    }

    open spec fn neg_spec(self) -> Node {
        Node::Constant(Constant::Int(0))
    }
}

impl std::ops::AddAssign<i64> for Node {
    /// As the same operator with the integer constant `rhs`.
    fn add_assign(&mut self, rhs: i64)
        ensures
            final(self)@ == sum_into(old(self)@, int_const(rhs), false),
    {
        let mut lhs = Node::Constant(Constant::Int(0));
        std::mem::swap(&mut lhs, self);
        *self = Node::Addition(accumulate::<false>(lhs, Node::Constant(Constant::Int(rhs))));
    }
}

impl std::ops::SubAssign<i64> for Node {
    /// As the same operator with the integer constant `rhs`.
    fn sub_assign(&mut self, rhs: i64)
        ensures
            final(self)@ == sum_into(old(self)@, int_const(rhs), true),
    {
        let mut lhs = Node::Constant(Constant::Int(0));
        std::mem::swap(&mut lhs, self);
        *self = Node::Addition(accumulate::<true>(lhs, Node::Constant(Constant::Int(rhs))));
    }
}

impl std::ops::MulAssign<i64> for Node {
    /// As the same operator with the integer constant `rhs`.
    fn mul_assign(&mut self, rhs: i64)
        ensures
            final(self)@ == product(old(self)@, int_const(rhs), false),
    {
        let mut lhs = Node::Constant(Constant::Int(0));
        std::mem::swap(&mut lhs, self);
        *self = Node::Multiplication(Multiplication::from_binary::<false>(lhs, Node::Constant(Constant::Int(rhs))));
    }
}

impl std::ops::DivAssign<i64> for Node {
    /// As the same operator with the integer constant `rhs`.
    fn div_assign(&mut self, rhs: i64)
        ensures
            final(self)@ == product(old(self)@, int_const(rhs), true),
    {
        let mut lhs = Node::Constant(Constant::Int(0));
        std::mem::swap(&mut lhs, self);
        *self = Node::Multiplication(Multiplication::from_binary::<true>(lhs, Node::Constant(Constant::Int(rhs))));
    }
}

impl std::ops::BitXorAssign<i64> for Node {
    /// As the same operator with the integer constant `rhs`.
    fn bitxor_assign(&mut self, rhs: i64)
        ensures
            final(self)@ == pow(old(self)@, int_const(rhs)),
    {
        let mut lhs = Node::Constant(Constant::Int(0));
        std::mem::swap(&mut lhs, self);
        *self = Node::Power(Power::from_binary::<false>(lhs, Node::Constant(Constant::Int(rhs))));
    }
}

} // verus!
