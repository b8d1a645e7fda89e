use vstd::prelude::*;

use crate::context::Context;
use crate::expr::{neg, pow, Expr};
use crate::node::{lemma_view_seq, lemma_view_seq_push, view_seq, Node};
use crate::visitors::constant_folder::opt_view;
use crate::ops::{Addition, Log, Multiplication, Negation, Power};

verus! {

/// `e` with every variable that has a value in `vals` replaced, recursively, by
/// that value; `depth` bounds how many replacements may be nested. `None` when
/// the bound is reached, or a sum or product with fewer than two members is met.
pub open spec fn eval(e: Expr, vals: Map<usize, Expr>, depth: nat) -> Option<Expr>
    decreases depth, e, 0nat,
{
    match e {
        Expr::Var(v) => if vals.contains_key(v) {
            if depth == 0 {
                None
            } else {
                eval(vals[v], vals, (depth - 1) as nat)
            }
        } else {
            Some(e)
        },
        Expr::Add(s) => if s.len() < 2 {
            None
        } else {
            match eval_all(s, s.len(), vals, depth) {
                Some(t) => Some(Expr::Add(t)),
                None => None,
            }
        },
        Expr::Mul(s) => if s.len() < 2 {
            None
        } else {
            match eval_all(s, s.len(), vals, depth) {
                Some(t) => Some(Expr::Mul(t)),
                None => None,
            }
        },
        Expr::Pow(x, y) => match (eval(*x, vals, depth), eval(*y, vals, depth)) {
            (Some(a), Some(b)) => Some(pow(a, b)),
            _ => None,
        },
        Expr::Neg(x) => match eval(*x, vals, depth) {
            Some(a) => Some(neg(a)),
            None => None,
        },
        Expr::Ln(x) => match eval(*x, vals, depth) {
            Some(a) => Some(Expr::Ln(Box::new(a))),
            None => None,
        },
        Expr::Const(_) => Some(e),
    }
}

/// The first `k` members of `s`, each evaluated.
pub open spec fn eval_all(s: Seq<Expr>, k: nat, vals: Map<usize, Expr>, depth: nat) -> Option<Seq<Expr>>
    decreases depth, s, k,
{
    if k == 0 || k > s.len() {
        if k == 0 {
            Some(Seq::empty())
        } else {
            None
        }
    } else {
        match (eval_all(s, (k - 1) as nat, vals, depth), eval(s[k - 1], vals, depth)) {
            (Some(t), Some(x)) => Some(t.push(x)),
            _ => None,
        }
    }
}

/// How deep replacements nest at most in a context without cycles: one per
/// variable.
pub open spec fn context_depth(c: &Context) -> nat {
    c.view().names.len()
}

/// Replaces variables by the values a context assigns them.
pub struct Evaluator<'a> {
    pub variables: &'a Context,
}

impl<'a> Evaluator<'a> {
    pub fn new(variables: &'a Context) -> (e: Evaluator<'a>)
        ensures
            e.variables == variables,
    {
        Evaluator { variables }
    }

    /// `n` with the variables that have values replaced by them, recursively.
    ///
    /// The values must not refer back to their own variable, directly or not:
    /// then no replacement nests deeper than there are variables.
    pub fn evaluate(n: &Node, variables: &'a Context) -> (r: Node)
        requires
            eval(n@, variables.view().values, context_depth(variables)) is Some,
        ensures
            eval(n@, variables.view().values, context_depth(variables)) == Some(r@),
    {
        Evaluator::new(variables).eval(n)
    }

    /// `n` evaluated as `evaluate` evaluates it, or `None` where replacements
    /// nest deeper than there are variables (a value that refers back to its
    /// own variable), or a sum or product with fewer than two members is met.
    pub fn try_evaluate(n: &Node, variables: &'a Context) -> (r: Option<Node>)
        ensures
            eval(n@, variables.view().values, context_depth(variables)) == opt_view(r),
    {
        let depth = variables.num_variables();
        eval_node(variables, n, depth)
    }

    /// `n` with the variables that have values replaced by them, recursively.
    pub fn eval(&self, n: &Node) -> (r: Node)
        requires
            eval(n@, self.variables.view().values, context_depth(self.variables)) is Some,
        ensures
            eval(n@, self.variables.view().values, context_depth(self.variables)) == Some(r@),
    {
        let depth = self.variables.num_variables();
        eval_node(self.variables, n, depth).unwrap()
    }
}

fn eval_node(c: &Context, n: &Node, depth: usize) -> (r: Option<Node>)
    ensures
        eval(n@, c.view().values, depth as nat) == opt_view(r),
    decreases depth, n, 1nat,
{
    match n {
        Node::Variable(v) => match c.value(v) {
            Some(def) => {
                if depth == 0 {
                    None
                } else {
                    eval_node(c, def, depth - 1)
                }
            },
            None => Some(Node::Variable(*v)),
        },
        Node::Addition(a) => {
            proof {
                lemma_view_seq(a.members@);
            }
            if a.members.len() < 2 {
                return None;
            }
            let ms = match eval_members(c, &a.members, depth) {
                Some(ms) => ms,
                None => {
                    return None;
                },
            };
            proof {
                lemma_view_seq(ms@);
                lemma_eval_all_len(view_seq(a.members@), a.members@.len(), c.view().values, depth as nat);
            }
            Some(Node::Addition(Addition::new(ms)))
        },
        Node::Multiplication(m) => {
            proof {
                lemma_view_seq(m.members@);
            }
            if m.members.len() < 2 {
                return None;
            }
            let ms = match eval_members(c, &m.members, depth) {
                Some(ms) => ms,
                None => {
                    return None;
                },
            };
            proof {
                lemma_view_seq(ms@);
                lemma_eval_all_len(view_seq(m.members@), m.members@.len(), c.view().values, depth as nat);
            }
            Some(Node::Multiplication(Multiplication::new(ms)))
        },
        Node::Power(p) => {
            let x = match eval_node(c, &p.val, depth) {
                Some(x) => x,
                None => {
                    return None;
                },
            };
            let y = match eval_node(c, &p.exponent, depth) {
                Some(y) => y,
                None => {
                    return None;
                },
            };
            Some(Node::Power(Power::from_binary::<false>(x, y)))
        },
        Node::Negation(g) => {
            let x = match eval_node(c, &g.val, depth) {
                Some(x) => x,
                None => {
                    return None;
                },
            };
            Some(Node::Negation(Negation::new(x)))
        },
        Node::Log(l) => {
            let x = match eval_node(c, &l.val, depth) {
                Some(x) => x,
                None => {
                    return None;
                },
            };
            Some(Node::Log(Log::new(x)))
        },
        Node::Constant(k) => Some(Node::Constant(*k)),
    }
}

fn eval_members(c: &Context, members: &Vec<Node>, depth: usize) -> (r: Option<Vec<Node>>)
    ensures
        eval_all(view_seq(members@), members@.len(), c.view().values, depth as nat) == match r {
            Some(v) => Some(view_seq(v@)),
            None => None::<Seq<Expr>>,
        },
    decreases depth, members, 0nat,
{
    let ghost s = view_seq(members@);
    let ghost vals = c.view().values;
    proof {
        lemma_view_seq(members@);
    }
    let mut out: Vec<Node> = Vec::new();
    let mut i: usize = 0;
    while i < members.len()
        invariant
            s == view_seq(members@),
            vals == c.view().values,
            s.len() == members@.len(),
            forall|j: int| 0 <= j < s.len() ==> #[trigger] s[j] == members@[j]@,
            i <= members.len(),
            eval_all(s, i as nat, vals, depth as nat) == Some(view_seq(out@)),
        decreases members.len() - i,
    {
        assert(decreases_to!(members => members@[i as int])) by {
            broadcast use vstd::std_specs::vec::axiom_vec_index_decreases;
        }
        let x = match eval_node(c, &members[i], depth) {
            Some(x) => x,
            None => {
                proof {
                    lemma_eval_all_none(s, (i + 1) as nat, s.len(), vals, depth as nat);
                }
                return None;
            },
        };
        proof {
            lemma_view_seq_push(out@, x);
        }
        out.push(x);
        i = i + 1;
    }
    Some(out)
}

/// A failure to evaluate the first members is a failure for all of them.
proof fn lemma_eval_all_none(s: Seq<Expr>, j: nat, k: nat, vals: Map<usize, Expr>, depth: nat)
    requires
        j <= k <= s.len(),
        eval_all(s, j, vals, depth) is None,
    ensures
        eval_all(s, k, vals, depth) is None,
    decreases k - j,
{
    if j < k {
        lemma_eval_all_none(s, j, (k - 1) as nat, vals, depth);
    }
}

/// Evaluating `k` members gives `k` members.
proof fn lemma_eval_all_len(s: Seq<Expr>, k: nat, vals: Map<usize, Expr>, depth: nat)
    requires
        eval_all(s, k, vals, depth) is Some,
    ensures
        eval_all(s, k, vals, depth).unwrap().len() == k,
    decreases k,
{
    if k > 0 {
        lemma_eval_all_len(s, (k - 1) as nat, vals, depth);
    }
}

} // verus!
