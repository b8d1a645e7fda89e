use vstd::prelude::*;

use crate::constant::Constant;

verus! {

/// The mathematical model of an expression tree: what a `Node` stands for.
pub enum Expr {
    Add(Seq<Expr>),
    Mul(Seq<Expr>),
    Pow(Box<Expr>, Box<Expr>),
    Var(usize),
    Const(Constant),
    Neg(Box<Expr>),
    Ln(Box<Expr>),
}

pub open spec fn int_const(i: i64) -> Expr {
    Expr::Const(Constant::Int(i))
}

/// `-e`, as a negation node.
pub open spec fn neg(e: Expr) -> Expr {
    Expr::Neg(Box::new(e))
}

/// `1 / e`, as the power `e ^ -1`.
pub open spec fn recip(e: Expr) -> Expr {
    Expr::Pow(Box::new(e), Box::new(int_const(-1i64)))
}

/// `e ^ y`.
pub open spec fn pow(e: Expr, y: Expr) -> Expr {
    Expr::Pow(Box::new(e), Box::new(y))
}

/// The factors of `e`: the members of a product, or `e` alone.
pub open spec fn factors(e: Expr) -> Seq<Expr> {
    match e {
        Expr::Mul(s) => s,
        _ => seq![e],
    }
}

/// Each element negated when `inverse` holds, else unchanged.
pub open spec fn negated(s: Seq<Expr>, inverse: bool) -> Seq<Expr> {
    if inverse {
        s.map_values(|e: Expr| neg(e))
    } else {
        s
    }
}

/// Each element inverted when `inverse` holds, else unchanged.
pub open spec fn inverted(s: Seq<Expr>, inverse: bool) -> Seq<Expr> {
    if inverse {
        s.map_values(|e: Expr| recip(e))
    } else {
        s
    }
}

/// `l + r` (or `l - r` when `inverse` holds): a sum of the two, the second
/// negated for a difference.
pub open spec fn sum(l: Expr, r: Expr, inverse: bool) -> Expr {
    Expr::Add(seq![l, if inverse { neg(r) } else { r }])
}

/// `l += r` (or `l -= r` when `inverse` holds), as one flat sum: the members of
/// `l` (or `l` alone) followed by those of `r` (or `r` alone), the latter each
/// negated for a difference.
pub open spec fn sum_into(l: Expr, r: Expr, inverse: bool) -> Expr {
    match (l, r) {
        (Expr::Add(a), Expr::Add(b)) => Expr::Add(a + negated(b, inverse)),
        (Expr::Add(a), _) => Expr::Add(a.push(if inverse { neg(r) } else { r })),
        (_, Expr::Add(b)) => Expr::Add(seq![l] + negated(b, inverse)),
        _ => sum(l, r, inverse),
    }
}

/// `l * r` (or `l / r` when `inverse` holds), as one flat product: the factors of
/// `l` followed by those of `r`, each inverted for a quotient.
pub open spec fn product(l: Expr, r: Expr, inverse: bool) -> Expr {
    Expr::Mul(factors(l) + inverted(factors(r), inverse))
}

impl Expr {
    /// Every sum and product in the tree has at least two members.
    pub open spec fn wf(self) -> bool
        decreases self,
    {
        match self {
            Expr::Add(s) => s.len() >= 2 && forall|i: int| 0 <= i < s.len() ==> (#[trigger] s[i]).wf(),
            Expr::Mul(s) => s.len() >= 2 && forall|i: int| 0 <= i < s.len() ==> (#[trigger] s[i]).wf(),
            Expr::Pow(x, y) => x.wf() && y.wf(),
            Expr::Neg(x) => x.wf(),
            Expr::Ln(x) => x.wf(),
            _ => true,
        }
    }

    /// Binding strength used for printing: sums 50, products 100, powers 150,
    /// `None` for everything else.
    pub open spec fn precedence(self) -> Option<u32> {
        match self {
            Expr::Add(_) => Some(50),
            Expr::Mul(_) => Some(100),
            Expr::Pow(_, _) => Some(150),
            _ => None,
        }
    }
}

pub open spec fn all_wf(s: Seq<Expr>) -> bool {
    forall|i: int| 0 <= i < s.len() ==> (#[trigger] s[i]).wf()
}

pub proof fn lemma_inverted_wf(s: Seq<Expr>, inverse: bool)
    requires
        all_wf(s),
    ensures
        all_wf(inverted(s, inverse)),
        inverted(s, inverse).len() == s.len(),
{
    if inverse {
        assert forall|i: int| 0 <= i < s.len() implies (#[trigger] inverted(s, inverse)[i]).wf() by {
            assert(inverted(s, inverse)[i] == recip(s[i]));
            assert(int_const(-1i64).wf());
        }
    }
}

/// A sum built from well-formed operands is well formed.
pub proof fn lemma_sum_wf(l: Expr, r: Expr, inverse: bool)
    requires
        l.wf(),
        r.wf(),
    ensures
        sum(l, r, inverse).wf(),
{
    let s = seq![l, if inverse { neg(r) } else { r }];
    assert forall|i: int| 0 <= i < s.len() implies (#[trigger] s[i]).wf() by {
        if i == 1 && inverse {
            assert(neg(r).wf());
        }
    }
}

/// A product built from well-formed operands is well formed.
pub proof fn lemma_product_wf(l: Expr, r: Expr, inverse: bool)
    requires
        l.wf(),
        r.wf(),
    ensures
        product(l, r, inverse).wf(),
{
    assert(all_wf(factors(l)));
    assert(all_wf(factors(r)));
    lemma_inverted_wf(factors(r), inverse);
    let s = factors(l) + inverted(factors(r), inverse);
    assert forall|i: int| 0 <= i < s.len() implies (#[trigger] s[i]).wf() by {
        if i < factors(l).len() {
        } else {
            assert(s[i] == inverted(factors(r), inverse)[i - factors(l).len()]);
        }
    }
}

} // verus!
