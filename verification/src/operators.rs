use vstd::prelude::*;

use vstd::std_specs::ops::{AddSpecImpl, BitXorSpecImpl, DivSpecImpl, MulSpecImpl, NegSpecImpl, SubSpecImpl};
use vstd::std_specs::convert::FromSpecImpl;

use crate::constant::Constant;
use crate::expr::{neg, pow, product, sum, sum_into};
use crate::node::Node;
use crate::ops::{Addition, Log, Multiplication, Negation, Power, Variable};

verus! {

impl std::ops::Add<Node> for Node {
    type Output = Node;

    /// `lhs + rhs`: a sum of the two; neither may be a sum (see `add_req`).
    fn add(self, rhs: Node) -> (r: Node)
        ensures
            r@ == sum(self@, rhs@, false),
    {
        Node::Addition(Addition::from_binary::<false>(self, rhs))
    }
}

impl AddSpecImpl<Node> for Node {
    open spec fn obeys_add_spec() -> bool {
        false
    }

    open spec fn add_req(self, rhs: Node) -> bool {
        !(self@ is Add) && !(rhs@ is Add)
    }

    open spec fn add_spec(self, rhs: Node) -> Node {
        self
    }
}

impl std::ops::Sub<Node> for Node {
    type Output = Node;

    /// `lhs - rhs`: a sum of `lhs` and the negated `rhs`; `lhs` may not be a sum
    /// (see `sub_req`).
    fn sub(self, rhs: Node) -> (r: Node)
        ensures
            r@ == sum(self@, rhs@, true),
    {
        Node::Addition(Addition::from_binary::<true>(self, rhs))
    }
}

impl SubSpecImpl<Node> for Node {
    open spec fn obeys_sub_spec() -> bool {
        false
    }

    open spec fn sub_req(self, rhs: Node) -> bool {
        !(self@ is Add)
    }

    open spec fn sub_spec(self, rhs: Node) -> Node {
        self
    }
}

impl std::ops::Mul<Node> for Node {
    type Output = Node;

    /// `lhs * rhs`: one flat product of the factors of both sides.
    fn mul(self, rhs: Node) -> (r: Node)
        ensures
            r@ == product(self@, rhs@, false),
    {
        Node::Multiplication(Multiplication::from_binary::<false>(self, rhs))
    }
}

impl MulSpecImpl<Node> for Node {
    open spec fn obeys_mul_spec() -> bool {
        false
    }

    open spec fn mul_req(self, rhs: Node) -> bool {
        true
    }

    open spec fn mul_spec(self, rhs: Node) -> Node {
        self
    }
}

impl std::ops::Div<Node> for Node {
    type Output = Node;

    /// `lhs / rhs`: one flat product of the factors of `lhs` and the reciprocals of the factors of `rhs`.
    fn div(self, rhs: Node) -> (r: Node)
        ensures
            r@ == product(self@, rhs@, true),
    {
        Node::Multiplication(Multiplication::from_binary::<true>(self, rhs))
    }
}

impl DivSpecImpl<Node> for Node {
    open spec fn obeys_div_spec() -> bool {
        false
    }

    open spec fn div_req(self, rhs: Node) -> bool {
        true
    }

    open spec fn div_spec(self, rhs: Node) -> Node {
        self
    }
}

impl std::ops::BitXor<Node> for Node {
    type Output = Node;

    /// `lhs ^ rhs`: the power with base `lhs` and exponent `rhs`.
    fn bitxor(self, rhs: Node) -> (r: Node)
        ensures
            r@ == pow(self@, rhs@),
    {
        Node::Power(Power::from_binary::<false>(self, rhs))
    }
}

impl BitXorSpecImpl<Node> for Node {
    open spec fn obeys_bitxor_spec() -> bool {
        false
    }

    open spec fn bitxor_req(self, rhs: Node) -> bool {
        true
    }

    open spec fn bitxor_spec(self, rhs: Node) -> Node {
        self
    }
}

impl std::ops::AddAssign<Node> for Node {
    /// `self += rhs`: one flat sum of the members of both sides.
    fn add_assign(&mut self, rhs: Node)
        ensures
            final(self)@ == sum_into(old(self)@, rhs@, false),
    {
        let mut lhs = Node::Constant(Constant::Int(0));
        std::mem::swap(&mut lhs, self);
        *self = Node::Addition(accumulate::<false>(lhs, rhs));
    }
}

impl std::ops::SubAssign<Node> for Node {
    /// `self -= rhs`: one flat sum of the members of `self` and the negated
    /// members of `rhs`.
    fn sub_assign(&mut self, rhs: Node)
        ensures
            final(self)@ == sum_into(old(self)@, rhs@, true),
    {
        let mut lhs = Node::Constant(Constant::Int(0));
        std::mem::swap(&mut lhs, self);
        *self = Node::Addition(accumulate::<true>(lhs, rhs));
    }
}

impl std::ops::MulAssign<Node> for Node {
    /// `self *= rhs`: the product `self * rhs` builds.
    fn mul_assign(&mut self, rhs: Node)
        ensures
            final(self)@ == product(old(self)@, rhs@, false),
    {
        let mut lhs = Node::Constant(Constant::Int(0));
        std::mem::swap(&mut lhs, self);
        *self = Node::Multiplication(Multiplication::from_binary::<false>(lhs, rhs));
    }
}

impl std::ops::DivAssign<Node> for Node {
    /// `self /= rhs`: the quotient `self / rhs` builds.
    fn div_assign(&mut self, rhs: Node)
        ensures
            final(self)@ == product(old(self)@, rhs@, true),
    {
        let mut lhs = Node::Constant(Constant::Int(0));
        std::mem::swap(&mut lhs, self);
        *self = Node::Multiplication(Multiplication::from_binary::<true>(lhs, rhs));
    }
}

impl std::ops::BitXorAssign<Node> for Node {
    /// `self ^= rhs`: the power `self ^ rhs`.
    fn bitxor_assign(&mut self, rhs: Node)
        ensures
            final(self)@ == pow(old(self)@, rhs@),
    {
        let mut lhs = Node::Constant(Constant::Int(0));
        std::mem::swap(&mut lhs, self);
        *self = Node::Power(Power::from_binary::<false>(lhs, rhs));
    }
}

/// The sum `lhs += rhs` (or `lhs -= rhs`) builds: sums on either side are
/// merged into one.
pub(crate) fn accumulate<const INVERSE_OP: bool>(lhs: Node, rhs: Node) -> (a: Addition)
    ensures
        a@ == sum_into(lhs@, rhs@, INVERSE_OP),
{
    match lhs {
        Node::Addition(l) => match rhs {
            Node::Addition(r) => Addition::fuse::<INVERSE_OP>(l, r),
            r => l.append::<INVERSE_OP>(r),
        },
        l => match rhs {
            Node::Addition(r) => r.prepend::<INVERSE_OP>(l),
            r => Addition::from_binary::<INVERSE_OP>(l, r),
        },
    }
}

impl std::ops::Neg for Node {
    type Output = Node;

    /// `-self`, as a negation node.
    fn neg(self) -> (r: Node)
        ensures
            r@ == neg(self@),
    {
        Node::Negation(Negation::new(self))
    }
}

impl NegSpecImpl for Node {
    open spec fn obeys_neg_spec() -> bool {
        false
    }

    open spec fn neg_req(self) -> bool {
        true
    }

    open spec fn neg_spec(self) -> Node {
        self
    }
}

impl From<i64> for Node {
    fn from(v: i64) -> (r: Node)
        ensures
            r@ == crate::expr::int_const(v),
    {
        Node::Constant(Constant::Int(v))
    }
}

impl FromSpecImpl<i64> for Node {
    open spec fn obeys_from_spec() -> bool {
        true
    }

    open spec fn from_spec(v: i64) -> Node {
        Node::Constant(Constant::Int(v))
    }
}

impl From<Variable> for Node {
    fn from(v: Variable) -> (r: Node)
        ensures
            r@ == crate::expr::Expr::Var(v.0),
    {
        Node::Variable(v)
    }
}

impl FromSpecImpl<Variable> for Node {
    open spec fn obeys_from_spec() -> bool {
        true
    }

    open spec fn from_spec(v: Variable) -> Node {
        Node::Variable(v)
    }
}

impl From<Constant> for Node {
    fn from(v: Constant) -> (r: Node)
        ensures
            r@ == crate::expr::Expr::Const(v),
    {
        Node::Constant(v)
    }
}

impl FromSpecImpl<Constant> for Node {
    open spec fn obeys_from_spec() -> bool {
        true
    }

    open spec fn from_spec(v: Constant) -> Node {
        Node::Constant(v)
    }
}

impl From<Addition> for Node {
    fn from(v: Addition) -> (r: Node)
        ensures
            r@ == v@,
    {
        Node::Addition(v)
    }
}

impl FromSpecImpl<Addition> for Node {
    open spec fn obeys_from_spec() -> bool {
        true
    }

    open spec fn from_spec(v: Addition) -> Node {
        Node::Addition(v)
    }
}

impl From<Multiplication> for Node {
    fn from(v: Multiplication) -> (r: Node)
        ensures
            r@ == v@,
    {
        Node::Multiplication(v)
    }
}

impl FromSpecImpl<Multiplication> for Node {
    open spec fn obeys_from_spec() -> bool {
        true
    }

    open spec fn from_spec(v: Multiplication) -> Node {
        Node::Multiplication(v)
    }
}

impl From<Power> for Node {
    fn from(v: Power) -> (r: Node)
        ensures
            r@ == v@,
    {
        Node::Power(v)
    }
}

impl FromSpecImpl<Power> for Node {
    open spec fn obeys_from_spec() -> bool {
        true
    }

    open spec fn from_spec(v: Power) -> Node {
        Node::Power(v)
    }
}

impl From<Negation> for Node {
    fn from(v: Negation) -> (r: Node)
        ensures
            r@ == v@,
    {
        Node::Negation(v)
    }
}

impl FromSpecImpl<Negation> for Node {
    open spec fn obeys_from_spec() -> bool {
        true
    }

    open spec fn from_spec(v: Negation) -> Node {
        Node::Negation(v)
    }
}

impl From<Log> for Node {
    fn from(v: Log) -> (r: Node)
        ensures
            r@ == v@,
    {
        Node::Log(v)
    }
}

impl FromSpecImpl<Log> for Node {
    open spec fn obeys_from_spec() -> bool {
        true
    }

    open spec fn from_spec(v: Log) -> Node {
        Node::Log(v)
    }
}

} // verus!
