use vstd::prelude::*;

use crate::expr::{inverted, product, recip, Expr};
use crate::node::{lemma_view_seq, lemma_view_seq_add, lemma_view_seq_one, lemma_view_seq_push, view_seq, Node};
use crate::ops::Power;

verus! {

/// A product of two or more members.
#[derive(Debug, PartialEq)]
pub struct Multiplication {
    pub members: Vec<Node>,
}

impl View for Multiplication {
    type V = Expr;

    open spec fn view(&self) -> Expr {
        Expr::Mul(view_seq(self.members@))
    }
}

/// The nodes of `v`, each replaced by its reciprocal when `inverse` holds.
fn invert_each(v: Vec<Node>, inverse: bool) -> (r: Vec<Node>)
    ensures
        view_seq(r@) == inverted(view_seq(v@), inverse),
        !inverse ==> r@ == v@,
{
    if !inverse {
        return v;
    }
    let ghost vs = v@;
    let mut rest = v;
    let mut out: Vec<Node> = Vec::new();
    while rest.len() > 0
        invariant
            vs == vs.take(vs.len() - rest@.len()) + rest@,
            rest@.len() <= vs.len(),
            view_seq(out@) == inverted(view_seq(vs.take(vs.len() - rest@.len())), true),
        decreases rest.len(),
    {
        let ghost k = vs.len() - rest@.len();
        let x = rest.remove(0);
        let ghost xv = x@;
        let y = Node::Power(Power::inverse(x));
        proof {
            assert(vs[k] == x);
            assert(vs.take(k + 1) =~= vs.take(k).push(x));
            lemma_view_seq_push(vs.take(k), x);
            lemma_view_seq_push(out@, y);
            lemma_view_seq(vs.take(k));
            assert(inverted(view_seq(vs.take(k)).push(xv), true) =~= inverted(
                view_seq(vs.take(k)),
                true,
            ).push(recip(xv)));
            assert(vs =~= vs.take(k + 1) + rest@);
        }
        out.push(y);
    }
    assert(vs.take(vs.len() as int) =~= vs);
    out
}

impl Multiplication {
    /// A product of the given members, of which there must be at least two.
    pub fn new(members: Vec<Node>) -> (a: Multiplication)
        requires
            members.len() > 1,
        ensures
            a@ == Expr::Mul(view_seq(members@)),
            a.members@ == members@,
    {
        Multiplication { members }
    }

    /// `lhs * rhs`, or `lhs / rhs` when `INVERSE_OP` holds, as one flat product.
    pub fn from_binary<const INVERSE_OP: bool>(lhs: Node, rhs: Node) -> (a: Multiplication)
        ensures
            a@ == product(lhs@, rhs@, INVERSE_OP),
    {
        match lhs {
            Node::Multiplication(l) => match rhs {
                Node::Multiplication(r) => Multiplication::fuse::<INVERSE_OP>(l, r),
                r => {
                    let ghost rv = r@;
                    let a = l.append::<INVERSE_OP>(r);
                    assert(a@ == product(l@, rv, INVERSE_OP)) by {
                        assert(inverted(seq![rv], INVERSE_OP) =~= seq![
                            if INVERSE_OP {
                                recip(rv)
                            } else {
                                rv
                            },
                        ]);
                        assert(view_seq(l.members@).push(
                            if INVERSE_OP {
                                recip(rv)
                            } else {
                                rv
                            },
                        ) =~= view_seq(l.members@) + inverted(seq![rv], INVERSE_OP));
                    }
                    a
                },
            },
            l => match rhs {
                Node::Multiplication(r) => r.prepend::<INVERSE_OP>(l),
                r => {
                    let ghost lv = l@;
                    let ghost rv = r@;
                    let r2 = if INVERSE_OP {
                        Node::Power(Power::inverse(r))
                    } else {
                        r
                    };
                    let members = vec![l, r2];
                    proof {
                        lemma_view_seq(members@);
                        assert(view_seq(members@) =~= seq![lv] + inverted(seq![rv], INVERSE_OP));
                    }
                    Multiplication { members }
                },
            },
        }
    }

    /// This product with `rhs` (inverted when `INVERSE_OP` holds) added as its last member.
    pub fn append<const INVERSE_OP: bool>(self, rhs: Node) -> (a: Multiplication)
        requires
            INVERSE_OP || !(rhs@ is Mul),
        ensures
            !INVERSE_OP ==> a.members@ == self.members@.push(rhs),
            a@ == Expr::Mul(
                view_seq(self.members@).push(
                    if INVERSE_OP {
                        recip(rhs@)
                    } else {
                        rhs@
                    },
                ),
            ),
    {
        let rhs = if INVERSE_OP {
            Node::Power(Power::inverse(rhs))
        } else {
            rhs
        };
        let mut members = self.members;
        proof {
            lemma_view_seq_push(members@, rhs);
        }
        members.push(rhs);
        Multiplication { members }
    }

    /// `lhs` followed by the members of this product, each inverted when `INVERSE_OP` holds.
    pub fn prepend<const INVERSE_OP: bool>(self, lhs: Node) -> (a: Multiplication)
        requires
            !(lhs@ is Mul),
        ensures
            a@ == Expr::Mul(seq![lhs@] + inverted(view_seq(self.members@), INVERSE_OP)),
            !INVERSE_OP ==> a.members@ == seq![lhs] + self.members@,
    {
        let mut rest = invert_each(self.members, INVERSE_OP);
        let mut members = vec![lhs];
        proof {
            lemma_view_seq_one(members@[0]);
            assert(members@ =~= seq![members@[0]]);
            lemma_view_seq_add(members@, rest@);
        }
        members.append(&mut rest);
        Multiplication { members }
    }

    /// The members of `lhs` followed by those of `rhs`, the latter inverted when
    /// `INVERSE_OP` holds.
    pub fn fuse<const INVERSE_OP: bool>(lhs: Multiplication, rhs: Multiplication) -> (a: Multiplication)
        ensures
            a@ == Expr::Mul(view_seq(lhs.members@) + inverted(view_seq(rhs.members@), INVERSE_OP)),
            !INVERSE_OP ==> a.members@ == lhs.members@ + rhs.members@,
    {
        let mut rest = invert_each(rhs.members, INVERSE_OP);
        let mut members = lhs.members;
        proof {
            lemma_view_seq_add(members@, rest@);
        }
        members.append(&mut rest);
        Multiplication { members }
    }
}

} // verus!
