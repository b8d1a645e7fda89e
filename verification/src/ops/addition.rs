use vstd::prelude::*;

use crate::expr::{neg, negated, sum, Expr};
use crate::node::{lemma_view_seq, lemma_view_seq_add, lemma_view_seq_one, lemma_view_seq_push, view_seq, Node};
use crate::ops::Negation;

verus! {

/// A sum of two or more members.
#[derive(Debug, PartialEq)]
pub struct Addition {
    pub members: Vec<Node>,
}

impl View for Addition {
    type V = Expr;

    open spec fn view(&self) -> Expr {
        Expr::Add(view_seq(self.members@))
    }
}

/// The nodes of `v`, each wrapped in a negation when `inverse` holds.
fn negate_each(v: Vec<Node>, inverse: bool) -> (r: Vec<Node>)
    ensures
        view_seq(r@) == negated(view_seq(v@), inverse),
        !inverse ==> r@ == v@,
{
    if !inverse {
        return v;
    }
    let ghost vs = v@;
    let mut rest = v;
    let mut out: Vec<Node> = Vec::new();
    while rest.len() > 0
        invariant
            vs == vs.take(vs.len() - rest@.len()) + rest@,
            rest@.len() <= vs.len(),
            view_seq(out@) == negated(view_seq(vs.take(vs.len() - rest@.len())), true),
        decreases rest.len(),
    {
        let ghost k = vs.len() - rest@.len();
        let x = rest.remove(0);
        let ghost xv = x@;
        let y = Node::Negation(Negation::new(x));
        proof {
            assert(vs[k] == x);
            assert(vs.take(k + 1) =~= vs.take(k).push(x));
            lemma_view_seq_push(vs.take(k), x);
            lemma_view_seq_push(out@, y);
            lemma_view_seq(vs.take(k));
            assert(negated(view_seq(vs.take(k)).push(xv), true) =~= negated(
                view_seq(vs.take(k)),
                true,
            ).push(neg(xv)));
            assert(vs =~= vs.take(k + 1) + rest@);
        }
        out.push(y);
    }
    assert(vs.take(vs.len() as int) =~= vs);
    out
}

impl Addition {
    /// A sum of the given members, of which there must be at least two.
    pub fn new(members: Vec<Node>) -> (a: Addition)
        requires
            members.len() > 1,
        ensures
            a@ == Expr::Add(view_seq(members@)),
            a.members@ == members@,
    {
        Addition { members }
    }

    /// `lhs + rhs`, or `lhs - rhs` when `INVERSE_OP` holds: a sum of exactly two
    /// members, the second one negated for a difference. Neither member may be a
    /// sum (for a difference, the negated right operand may be one).
    pub fn from_binary<const INVERSE_OP: bool>(lhs: Node, rhs: Node) -> (a: Addition)
        requires
            !(lhs@ is Add),
            INVERSE_OP || !(rhs@ is Add),
        ensures
            a@ == sum(lhs@, rhs@, INVERSE_OP),
    {
        let ghost lv = lhs@;
        let ghost rv = rhs@;
        let rhs = if INVERSE_OP {
            Node::Negation(Negation::new(rhs))
        } else {
            rhs
        };
        let members = vec![lhs, rhs];
        proof {
            lemma_view_seq(members@);
            assert(view_seq(members@) =~= seq![lv, if INVERSE_OP { neg(rv) } else { rv }]);
        }
        Addition { members }
    }

    /// This sum with `rhs` (negated when `INVERSE_OP` holds) added as its last member.
    pub fn append<const INVERSE_OP: bool>(self, rhs: Node) -> (a: Addition)
        requires
            INVERSE_OP || !(rhs@ is Add),
        ensures
            !INVERSE_OP ==> a.members@ == self.members@.push(rhs),
            a@ == Expr::Add(
                view_seq(self.members@).push(
                    if INVERSE_OP {
                        neg(rhs@)
                    } else {
                        rhs@
                    },
                ),
            ),
    {
        let rhs = if INVERSE_OP {
            Node::Negation(Negation::new(rhs))
        } else {
            rhs
        };
        let mut members = self.members;
        proof {
            lemma_view_seq_push(members@, rhs);
        }
        members.push(rhs);
        Addition { members }
    }

    /// `lhs` followed by the members of this sum, each negated when `INVERSE_OP` holds.
    pub fn prepend<const INVERSE_OP: bool>(self, lhs: Node) -> (a: Addition)
        requires
            !(lhs@ is Add),
        ensures
            a@ == Expr::Add(seq![lhs@] + negated(view_seq(self.members@), INVERSE_OP)),
            !INVERSE_OP ==> a.members@ == seq![lhs] + self.members@,
    {
        let mut rest = negate_each(self.members, INVERSE_OP);
        let mut members = vec![lhs];
        proof {
            lemma_view_seq_one(members@[0]);
            assert(members@ =~= seq![members@[0]]);
            lemma_view_seq_add(members@, rest@);
        }
        members.append(&mut rest);
        Addition { members }
    }

    /// The members of `lhs` followed by those of `rhs`, the latter negated when
    /// `INVERSE_OP` holds.
    pub fn fuse<const INVERSE_OP: bool>(lhs: Addition, rhs: Addition) -> (a: Addition)
        ensures
            a@ == Expr::Add(view_seq(lhs.members@) + negated(view_seq(rhs.members@), INVERSE_OP)),
            !INVERSE_OP ==> a.members@ == lhs.members@ + rhs.members@,
    {
        let mut rest = negate_each(rhs.members, INVERSE_OP);
        let mut members = lhs.members;
        proof {
            lemma_view_seq_add(members@, rest@);
        }
        members.append(&mut rest);
        Addition { members }
    }
}

} // verus!
