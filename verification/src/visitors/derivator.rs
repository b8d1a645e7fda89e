use vstd::prelude::*;

use crate::expr::{int_const, neg, product, sum, Expr};
use crate::node::{duplicate_all, lemma_view_seq, lemma_view_seq_push, view_seq, Node};
use crate::ops::{Addition, Log, Multiplication, Negation, Variable};

verus! {

/// The derivative of `e` with respect to the variable numbered `x`, built the way
/// the derivator builds it: the sum rule member by member, the product rule as
/// a sum of one product per member with that member derived, the power rule as
/// `x^y * (y' * ln(x) + x' * y / x)`, `(ln v)' = v' / ln v`, `(-v)' = -(v')`,
/// and `0` or `1` at the leaves.
pub open spec fn deriv(e: Expr, x: usize) -> Expr
    decreases e, 0nat,
{
    match e {
        Expr::Ln(v) => product(deriv(*v, x), e, true),
        Expr::Pow(a, b) => {
            let da = deriv(*a, x);
            let db = deriv(*b, x);
            let scalar = sum(
                product(db, Expr::Ln(a), false),
                product(product(da, *b, false), *a, true),
                false,
            );
            product(e, scalar, false)
        },
        Expr::Neg(v) => neg(deriv(*v, x)),
        Expr::Add(s) => Expr::Add(deriv_all(s, s.len(), x)),
        Expr::Mul(s) => Expr::Add(deriv_terms(s, s.len(), x)),
        Expr::Const(_) => int_const(0),
        Expr::Var(v) => if v == x {
            int_const(1)
        } else {
            int_const(0)
        },
    }
}

/// The derivatives of the first `k` members of `s`.
pub open spec fn deriv_all(s: Seq<Expr>, k: nat, x: usize) -> Seq<Expr>
    decreases s, k,
{
    if k == 0 || k > s.len() {
        Seq::empty()
    } else {
        deriv_all(s, (k - 1) as nat, x).push(deriv(s[k - 1], x))
    }
}

/// The first `k` terms of the product rule for the product of `s`: term `i` is
/// the product of `s` with its `i`-th member replaced by that member's derivative.
pub open spec fn deriv_terms(s: Seq<Expr>, k: nat, x: usize) -> Seq<Expr>
    decreases s, k,
{
    if k == 0 || k > s.len() {
        Seq::empty()
    } else {
        deriv_terms(s, (k - 1) as nat, x).push(Expr::Mul(s.update(k - 1, deriv(s[k - 1], x))))
    }
}

pub proof fn lemma_deriv_all_len(s: Seq<Expr>, k: nat, x: usize)
    requires
        k <= s.len(),
    ensures
        deriv_all(s, k, x).len() == k,
    decreases k,
{
    if k > 0 {
        lemma_deriv_all_len(s, (k - 1) as nat, x);
    }
}

pub proof fn lemma_deriv_terms_len(s: Seq<Expr>, k: nat, x: usize)
    requires
        k <= s.len(),
    ensures
        deriv_terms(s, k, x).len() == k,
    decreases k,
{
    if k > 0 {
        lemma_deriv_terms_len(s, (k - 1) as nat, x);
    }
}

/// Symbolic differentiation with respect to one variable.
pub struct Derivator {
    pub x: Variable,
}

impl Derivator {
    pub fn new(x: Variable) -> (d: Derivator)
        ensures
            d.x == x,
    {
        Derivator { x }
    }

    /// The derivative of `n` with respect to this derivator's variable.
    pub fn derive(&self, n: &Node) -> (r: Node)
        requires
            n@.wf(),
        ensures
            r@ == deriv(n@, self.x.0),
        decreases n, 1nat,
    {
        match n {
            Node::Log(l) => {
                let val = self.derive(&l.val);
                let whole = Node::Log(Log { val: Box::new(l.val.duplicate()) });
                val / whole
            },
            Node::Power(p) => {
                let x_dot = self.derive(&p.val);
                let y_dot = self.derive(&p.exponent);
                let ln_x = Node::Log(Log::new(p.val.duplicate()));
                let scalar = (y_dot * ln_x) + ((x_dot * p.exponent.duplicate()) / p.val.duplicate());
                let whole = n.duplicate();
                whole * scalar
            },
            Node::Negation(g) => {
                let val = self.derive(&g.val);
                Node::Negation(Negation::new(val))
            },
            Node::Addition(a) => {
                proof {
                    lemma_view_seq(a.members@);
                    assert forall|j: int| 0 <= j < a.members@.len() implies (#[trigger] a.members@[j])@.wf() by {
                        assert(view_seq(a.members@)[j] == a.members@[j]@);
                    }
                }
                let ms = self.derive_members(&a.members);
                proof {
                    lemma_view_seq(ms@);
                    lemma_deriv_all_len(view_seq(a.members@), a.members@.len(), self.x.0);
                }
                Node::Addition(Addition::new(ms))
            },
            Node::Multiplication(m) => {
                proof {
                    lemma_view_seq(m.members@);
                    assert forall|j: int| 0 <= j < m.members@.len() implies (#[trigger] m.members@[j])@.wf() by {
                        assert(view_seq(m.members@)[j] == m.members@[j]@);
                    }
                }
                let ts = self.derive_terms(&m.members);
                proof {
                    lemma_view_seq(ts@);
                    lemma_deriv_terms_len(view_seq(m.members@), m.members@.len(), self.x.0);
                }
                Node::Addition(Addition::new(ts))
            },
            Node::Constant(_) => Node::Constant(crate::constant::Constant::Int(0)),
            Node::Variable(v) => {
                if v.0 == self.x.0 {
                    Node::Constant(crate::constant::Constant::Int(1))
                } else {
                    Node::Constant(crate::constant::Constant::Int(0))
                }
            },
        }
    }

    fn derive_members(&self, members: &Vec<Node>) -> (r: Vec<Node>)
        requires
            forall|j: int| 0 <= j < members@.len() ==> (#[trigger] members@[j])@.wf(),
        ensures
            view_seq(r@) == deriv_all(view_seq(members@), members@.len(), self.x.0),
        decreases members, 0nat,
    {
        let ghost s = view_seq(members@);
        proof {
            lemma_view_seq(members@);
        }
        let mut out: Vec<Node> = Vec::new();
        let mut i: usize = 0;
        while i < members.len()
            invariant
                s == view_seq(members@),
                s.len() == members@.len(),
                forall|j: int| 0 <= j < s.len() ==> #[trigger] s[j] == members@[j]@,
                forall|j: int| 0 <= j < members@.len() ==> (#[trigger] members@[j])@.wf(),
                i <= members.len(),
                view_seq(out@) == deriv_all(s, i as nat, self.x.0),
            decreases members.len() - i,
        {
            assert(decreases_to!(members => members@[i as int])) by {
                broadcast use vstd::std_specs::vec::axiom_vec_index_decreases;
            }
            let d = self.derive(&members[i]);
            proof {
                lemma_view_seq_push(out@, d);
            }
            out.push(d);
            i = i + 1;
        }
        out
    }

    fn derive_terms(&self, members: &Vec<Node>) -> (r: Vec<Node>)
        requires
            members@.len() >= 2,
            forall|j: int| 0 <= j < members@.len() ==> (#[trigger] members@[j])@.wf(),
        ensures
            view_seq(r@) == deriv_terms(view_seq(members@), members@.len(), self.x.0),
        decreases members, 0nat,
    {
        let ghost s = view_seq(members@);
        proof {
            lemma_view_seq(members@);
        }
        let mut out: Vec<Node> = Vec::new();
        let mut i: usize = 0;
        while i < members.len()
            invariant
                s == view_seq(members@),
                s.len() == members@.len(),
                s.len() >= 2,
                forall|j: int| 0 <= j < s.len() ==> #[trigger] s[j] == members@[j]@,
                forall|j: int| 0 <= j < members@.len() ==> (#[trigger] members@[j])@.wf(),
                i <= members.len(),
                view_seq(out@) == deriv_terms(s, i as nat, self.x.0),
            decreases members.len() - i,
        {
            assert(decreases_to!(members => members@[i as int])) by {
                broadcast use vstd::std_specs::vec::axiom_vec_index_decreases;
            }
            let dm = self.derive(&members[i]);
            let mut elem = duplicate_all(members);
            proof {
                lemma_view_seq(elem@);
            }
            let ghost dmv = dm@;
            elem.set(i, dm);
            proof {
                lemma_view_seq(elem@);
                assert(view_seq(elem@) =~= s.update(i as int, dmv));
            }
            let t = Node::Multiplication(Multiplication::new(elem));
            proof {
                lemma_view_seq_push(out@, t);
            }
            out.push(t);
            i = i + 1;
        }
        out
    }
}

} // verus!
