use vstd::prelude::*;

use crate::constant::Constant;
use crate::expr::Expr;

verus! {

/// The integer value of `e` when its variables take the values `env`: defined
/// for expressions built from integer constants, variables that have a value,
/// sums, products, negations, and powers with a non-negative integer exponent.
pub open spec fn value(e: Expr, env: Map<usize, int>) -> Option<int>
    decreases e,
{
    match e {
        Expr::Const(Constant::Int(i)) => Some(i as int),
        Expr::Const(_) => None,
        Expr::Var(v) => if env.contains_key(v) {
            Some(env[v])
        } else {
            None
        },
        Expr::Add(s) => values_sum(s, env),
        Expr::Mul(s) => values_product(s, env),
        Expr::Neg(x) => match value(*x, env) {
            Some(a) => Some(-a),
            None => None,
        },
        Expr::Pow(x, y) => match (value(*x, env), value(*y, env)) {
            (Some(a), Some(k)) => if k >= 0 {
                Some(vstd::arithmetic::power::pow(a, k as nat))
            } else {
                None
            },
            _ => None,
        },
        Expr::Ln(_) => None,
    }
}

/// The sum of the values of the members of `s`.
pub open spec fn values_sum(s: Seq<Expr>, env: Map<usize, int>) -> Option<int>
    decreases s,
{
    if s.len() == 0 {
        Some(0)
    } else {
        match (values_sum(s.drop_last(), env), value(s.last(), env)) {
            (Some(a), Some(b)) => Some(a + b),
            _ => None,
        }
    }
}

/// The product of the values of the members of `s`.
pub open spec fn values_product(s: Seq<Expr>, env: Map<usize, int>) -> Option<int>
    decreases s,
{
    if s.len() == 0 {
        Some(1)
    } else {
        match (values_product(s.drop_last(), env), value(s.last(), env)) {
            (Some(a), Some(b)) => Some(a * b),
            _ => None,
        }
    }
}

} // verus!
