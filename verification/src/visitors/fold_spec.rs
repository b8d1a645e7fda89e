use vstd::prelude::*;

use crate::binary64::{spec_negate_bits, FloatOp, ONE_BITS, ZERO_BITS};
use crate::constant::Constant;
use crate::expr::{int_const, Expr};

verus! {

/// The constants gathered so far while folding the members of a sum or product:
/// the integer part, the floating part, and the members that are not constants.
pub struct Acc {
    pub int: Option<i64>,
    pub fp: Option<u64>,
    pub rest: Seq<Expr>,
}

pub open spec fn empty_acc() -> Acc {
    Acc { int: None, fp: None, rest: Seq::empty() }
}

pub open spec fn i64_fits(x: int) -> bool {
    i64::MIN <= x <= i64::MAX
}

pub open spec fn fp_const(b: u64) -> Expr {
    Expr::Const(Constant::Fp(b))
}

/// One folded member taken into a sum's accumulator; `None` where the integer
/// sum leaves the `i64` range.
pub open spec fn sum_step(acc: Acc, m: Expr, sem: spec_fn(FloatOp) -> u64) -> Option<Acc> {
    match m {
        Expr::Const(Constant::Int(i)) => {
            let a: int = match acc.int {
                Some(a) => a as int,
                None => 0,
            };
            if i64_fits(a + i) {
                Some(Acc { int: Some((a + i) as i64), ..acc })
            } else {
                None
            }
        },
        Expr::Const(Constant::Fp(f)) => {
            let a = match acc.fp {
                Some(a) => a,
                None => ZERO_BITS,
            };
            Some(Acc { fp: Some(sem(FloatOp::Add(a, f))), ..acc })
        },
        _ => Some(Acc { rest: acc.rest.push(m), ..acc }),
    }
}

/// The members a sum folds to, from its accumulator: the non-constant members,
/// then the combined constant unless it is the integer zero.
pub open spec fn sum_members(acc: Acc, sem: spec_fn(FloatOp) -> u64) -> Seq<Expr> {
    match (acc.int, acc.fp) {
        (Some(i), None) => if i != 0 {
            acc.rest.push(int_const(i))
        } else {
            acc.rest
        },
        (None, Some(f)) => acc.rest.push(fp_const(f)),
        (None, None) => acc.rest,
        (Some(i), Some(f)) => acc.rest.push(fp_const(sem(FloatOp::Add(sem(FloatOp::FromInt(i)), f)))),
    }
}

/// The folded sum: integer zero when nothing is left, the single member when one
/// is, else the sum of what is left.
pub open spec fn sum_result(s: Seq<Expr>) -> Expr {
    if s.len() == 0 {
        int_const(0)
    } else if s.len() == 1 {
        s[0]
    } else {
        Expr::Add(s)
    }
}

/// One folded member taken into a product's accumulator; `None` where the
/// integer product leaves the `i64` range. (A zero member never gets here.)
pub open spec fn prod_step(acc: Acc, m: Expr, sem: spec_fn(FloatOp) -> u64) -> Option<Acc> {
    match m {
        Expr::Const(Constant::Int(i)) => {
            let a: int = match acc.int {
                Some(a) => a as int,
                None => 1,
            };
            if i64_fits(a * i) {
                Some(Acc { int: Some((a * i) as i64), ..acc })
            } else {
                None
            }
        },
        Expr::Const(Constant::Fp(f)) => {
            let a = match acc.fp {
                Some(a) => a,
                None => ONE_BITS,
            };
            Some(Acc { fp: Some(sem(FloatOp::Mul(a, f))), ..acc })
        },
        _ => Some(Acc { rest: acc.rest.push(m), ..acc }),
    }
}

/// The members a product folds to: the non-constant members, then the combined
/// constant unless it is the integer one.
pub open spec fn prod_members(acc: Acc, sem: spec_fn(FloatOp) -> u64) -> Seq<Expr> {
    match (acc.int, acc.fp) {
        (Some(i), None) => if i != 1 {
            acc.rest.push(int_const(i))
        } else {
            acc.rest
        },
        (None, Some(f)) => acc.rest.push(fp_const(f)),
        (None, None) => acc.rest,
        (Some(i), Some(f)) => acc.rest.push(fp_const(sem(FloatOp::Mul(sem(FloatOp::FromInt(i)), f)))),
    }
}

/// The folded product: the single member when one is left, the product of two
/// or more; `None` when none is left (a product of no members cannot be built).
pub open spec fn prod_result(s: Seq<Expr>) -> Option<Expr> {
    if s.len() == 0 {
        None
    } else if s.len() == 1 {
        Some(s[0])
    } else {
        Some(Expr::Mul(s))
    }
}

/// State after folding the first `k` members of a sum: `None` when folding fails.
pub open spec fn fold_sum(s: Seq<Expr>, k: nat, sem: spec_fn(FloatOp) -> u64) -> Option<Acc>
    decreases s, k,
{
    if k == 0 || k > s.len() {
        if k == 0 { Some(empty_acc()) } else { None }
    } else {
        match fold_sum(s, (k - 1) as nat, sem) {
            None => None,
            Some(acc) => match fold(s[k - 1], sem) {
                None => None,
                Some(m) => sum_step(acc, m, sem),
            },
        }
    }
}

/// State after folding the first `k` members of a product: `None` when folding
/// fails, `Some(None)` once a member has folded to the integer zero (the members
/// after it are not folded), else the accumulator.
pub open spec fn fold_prod(s: Seq<Expr>, k: nat, sem: spec_fn(FloatOp) -> u64) -> Option<Option<Acc>>
    decreases s, k,
{
    if k == 0 || k > s.len() {
        if k == 0 { Some(Some(empty_acc())) } else { None }
    } else {
        match fold_prod(s, (k - 1) as nat, sem) {
            None => None,
            Some(None) => Some(None),
            Some(Some(acc)) => match fold(s[k - 1], sem) {
                None => None,
                Some(m) => if m == int_const(0) {
                    Some(None)
                } else {
                    match prod_step(acc, m, sem) {
                        None => None,
                        Some(a) => Some(Some(a)),
                    }
                },
            },
        }
    }
}

/// The folded power, from the power `e` and its folded base `a` and exponent `b`;
/// `None` where the integer power overflows or the exponent is `i64::MIN`.
pub open spec fn fold_power(e: Expr, a: Expr, b: Expr, sem: spec_fn(FloatOp) -> u64) -> Option<Expr> {
    match (a, b) {
        (Expr::Const(Constant::Int(x)), Expr::Const(Constant::Int(y))) => {
            if y == i64::MIN {
                None
            } else {
                let n = (if y < 0 { -y } else { y as int }) as u32;
                let p = vstd::arithmetic::power::pow(x as int, n as nat);
                if !i64_fits(p) {
                    None
                } else if y < 0 {
                    Some(fp_const(sem(FloatOp::Recip(sem(FloatOp::FromInt(p as i64))))))
                } else {
                    Some(int_const(p as i64))
                }
            }
        },
        (Expr::Const(Constant::Fp(x)), Expr::Const(Constant::Int(y))) => Some(
            fp_const(sem(FloatOp::Powi(x, y as i32))),
        ),
        (Expr::Const(Constant::Fp(x)), Expr::Const(Constant::Fp(y))) => Some(
            fp_const(sem(FloatOp::Powf(x, y))),
        ),
        (Expr::Const(Constant::Int(x)), Expr::Const(Constant::Fp(y))) => Some(
            fp_const(sem(FloatOp::Powf(sem(FloatOp::FromInt(x)), y))),
        ),
        (_, Expr::Const(Constant::Int(y))) => if y == 0 {
            Some(int_const(1))
        } else if y == 1 {
            Some(a)
        } else {
            Some(e)
        },
        _ => Some(e),
    }
}

/// The folded negation `e` of `x`. Only a constant or a nested negation
/// directly below is looked at; of a double negation the inner one is kept.
pub open spec fn fold_negation(e: Expr, x: Expr) -> Option<Expr> {
    match x {
        Expr::Const(Constant::Int(i)) => if i == i64::MIN {
            None
        } else {
            Some(int_const(-i as i64))
        },
        Expr::Const(Constant::Fp(f)) => Some(fp_const(spec_negate_bits(f))),
        Expr::Neg(_) => Some(x),
        _ => Some(e),
    }
}

/// The folded logarithm of the folded `v`: the base-2 logarithm of a constant.
pub open spec fn fold_log(v: Expr, sem: spec_fn(FloatOp) -> u64) -> Expr {
    match v {
        Expr::Const(Constant::Int(k)) => fp_const(sem(FloatOp::Log2(sem(FloatOp::FromInt(k))))),
        Expr::Const(Constant::Fp(f)) => fp_const(sem(FloatOp::Log2(f))),
        _ => Expr::Ln(Box::new(v)),
    }
}

/// Constant folding of `e`, with `sem` as the float arithmetic; `None` where it
/// fails (an integer overflow, or a product left without members).
pub open spec fn fold(e: Expr, sem: spec_fn(FloatOp) -> u64) -> Option<Expr>
    decreases e, 0nat,
{
    match e {
        Expr::Add(s) => match fold_sum(s, s.len(), sem) {
            None => None,
            Some(acc) => Some(sum_result(sum_members(acc, sem))),
        },
        Expr::Mul(s) => match fold_prod(s, s.len(), sem) {
            None => None,
            Some(None) => Some(int_const(0)),
            Some(Some(acc)) => prod_result(prod_members(acc, sem)),
        },
        Expr::Pow(x, y) => match (fold(*x, sem), fold(*y, sem)) {
            (Some(a), Some(b)) => fold_power(e, a, b, sem),
            _ => None,
        },
        Expr::Neg(x) => fold_negation(e, *x),
        Expr::Ln(x) => match fold(*x, sem) {
            None => None,
            Some(v) => Some(fold_log(v, sem)),
        },
        _ => Some(e),
    }
}

/// What a folded expression is, as far as the folding of what surrounds it
/// looks: an integer constant (with its value), a float constant, or anything
/// else. It does not depend on the float arithmetic.
pub enum Kind {
    Int(i64),
    Fp,
    Other,
}

pub open spec fn kind_of(e: Expr) -> Kind {
    match e {
        Expr::Const(Constant::Int(i)) => Kind::Int(i),
        Expr::Const(Constant::Fp(_)) => Kind::Fp,
        _ => Kind::Other,
    }
}

/// Every element of `s` is neither an integer nor a float constant.
pub open spec fn all_other(s: Seq<Expr>) -> bool {
    forall|j: int| 0 <= j < s.len() ==> kind_of(#[trigger] s[j]) == Kind::Other
}

/// `a` has the integer part `ip`, a float part exactly when `has_fp`, and
/// `n_rest` other members, none of them a number.
pub open spec fn acc_shape(a: Acc, ip: Option<i64>, has_fp: bool, n_rest: nat) -> bool {
    &&& a.int == ip
    &&& (a.fp is Some) == has_fp
    &&& a.rest.len() == n_rest
    &&& all_other(a.rest)
}

/// How many constants a folded sum ends with: none for no constant or a lone
/// integer zero, else one.
pub open spec fn sum_consts(ip: Option<i64>, has_fp: bool) -> nat {
    match ip {
        Some(i) => if !has_fp && i == 0 { 0 } else { 1 },
        None => if has_fp { 1 } else { 0 },
    }
}

/// How many constants a folded product ends with: none for no constant or a
/// lone integer one, else one.
pub open spec fn prod_consts(ip: Option<i64>, has_fp: bool) -> nat {
    match ip {
        Some(i) => if !has_fp && i == 1 { 0 } else { 1 },
        None => if has_fp { 1 } else { 0 },
    }
}

/// The kind of the one constant a folded sum or product ends with.
pub open spec fn const_kind(ip: Option<i64>, has_fp: bool) -> Kind {
    match ip {
        Some(i) => if has_fp { Kind::Fp } else { Kind::Int(i) },
        None => Kind::Fp,
    }
}

/// The kind of a folded sum or product with `n` members, the last `c` of them
/// constants (at most one); `empty` is what no member gives.
pub open spec fn result_kind(n_rest: nat, c: nat, ip: Option<i64>, has_fp: bool, empty: Kind) -> Kind {
    if n_rest + c == 0 {
        empty
    } else if n_rest + c == 1 {
        if n_rest == 1 { Kind::Other } else { const_kind(ip, has_fp) }
    } else {
        Kind::Other
    }
}

/// The kind of a folded sum does not depend on the float arithmetic: it follows
/// from the shape of the accumulator.
pub proof fn lemma_sum_kind(a: Acc, sem: spec_fn(FloatOp) -> u64)
    requires
        all_other(a.rest),
    ensures
        kind_of(sum_result(sum_members(a, sem))) == result_kind(
            a.rest.len(),
            sum_consts(a.int, a.fp is Some),
            a.int,
            a.fp is Some,
            Kind::Int(0),
        ),
{
    let t = sum_members(a, sem);
    if sum_consts(a.int, a.fp is Some) == 1 {
        assert(t.len() == a.rest.len() + 1);
        assert(t[a.rest.len() as int] == t.last());
        if a.rest.len() == 0 {
            assert(t[0] == t.last());
        } else if a.rest.len() == 1 {
        }
    } else {
        assert(t =~= a.rest);
        if a.rest.len() == 1 {
            assert(kind_of(a.rest[0]) == Kind::Other);
        }
    }
}

/// The kind of a folded product does not depend on the float arithmetic; a
/// product with no member left gives `None` whatever the arithmetic.
pub proof fn lemma_prod_kind(a: Acc, sem: spec_fn(FloatOp) -> u64)
    requires
        all_other(a.rest),
    ensures
        (prod_result(prod_members(a, sem)) is Some) == (a.rest.len() + prod_consts(a.int, a.fp is Some) > 0),
        prod_result(prod_members(a, sem)) is Some ==> kind_of(prod_result(prod_members(a, sem)).unwrap())
            == result_kind(a.rest.len(), prod_consts(a.int, a.fp is Some), a.int, a.fp is Some, Kind::Other),
{
    let t = prod_members(a, sem);
    if prod_consts(a.int, a.fp is Some) == 1 {
        assert(t.len() == a.rest.len() + 1);
        if a.rest.len() == 0 {
            assert(t[0] == t.last());
        }
    } else {
        assert(t =~= a.rest);
        if a.rest.len() == 1 {
            assert(kind_of(a.rest[0]) == Kind::Other);
        }
    }
}

/// Folding failures propagate: once the state of a sum is `None`, it stays so.
pub proof fn lemma_fold_sum_none(s: Seq<Expr>, j: nat, k: nat, sem: spec_fn(FloatOp) -> u64)
    requires
        j <= k <= s.len(),
        fold_sum(s, j, sem) is None,
    ensures
        fold_sum(s, k, sem) is None,
    decreases k - j,
{
    if j < k {
        lemma_fold_sum_none(s, j, (k - 1) as nat, sem);
    }
}

pub proof fn lemma_fold_prod_none(s: Seq<Expr>, j: nat, k: nat, sem: spec_fn(FloatOp) -> u64)
    requires
        j <= k <= s.len(),
        fold_prod(s, j, sem) is None,
    ensures
        fold_prod(s, k, sem) is None,
    decreases k - j,
{
    if j < k {
        lemma_fold_prod_none(s, j, (k - 1) as nat, sem);
    }
}

/// Once a product member folds to zero, the product does.
pub proof fn lemma_fold_prod_zero(s: Seq<Expr>, j: nat, k: nat, sem: spec_fn(FloatOp) -> u64)
    requires
        j <= k <= s.len(),
        fold_prod(s, j, sem) == Some(None::<Acc>),
    ensures
        fold_prod(s, k, sem) == Some(None::<Acc>),
    decreases k - j,
{
    if j < k {
        lemma_fold_prod_zero(s, j, (k - 1) as nat, sem);
    }
}

} // verus!
