use vstd::prelude::*;

use vstd::arithmetic::power::pow;

use crate::binary64::{FloatOp, ONE_BITS, ZERO_BITS};
use crate::constant::Constant;
use crate::expr::{int_const, Expr};
use crate::visitors::fold_spec::{
    fold, fold_prod, fold_sum, fp_const, i64_fits, kind_of, lemma_fold_prod_zero, prod_members,
    sum_members, Acc, Kind,
};

verus! {

/// A member that folds to the integer zero makes the whole product fold to
/// zero, whatever the members after it are, once the members before it have
/// folded.
pub proof fn lemma_fold_zero_factor(s: Seq<Expr>, k: nat, sem: spec_fn(FloatOp) -> u64)
    requires
        k < s.len(),
        fold_prod(s, k, sem) is Some,
        fold(s[k as int], sem) == Some(int_const(0)),
    ensures
        fold(Expr::Mul(s), sem) == Some(int_const(0)),
{
    assert(fold_prod(s, k + 1, sem) == Some(None::<Acc>));
    lemma_fold_prod_zero(s, k + 1, s.len(), sem);
}

/// A power of integers folds to the integer power when the exponent is not
/// negative, else to the reciprocal of the integer power as a float; the
/// power must fit in an `i64` and the exponent's size in a `u32`.
pub proof fn lemma_fold_int_power(x: Expr, y: Expr, a: i64, b: i64, sem: spec_fn(FloatOp) -> u64)
    requires
        fold(x, sem) == Some(int_const(a)),
        fold(y, sem) == Some(int_const(b)),
        -0x1_0000_0000 < b < 0x1_0000_0000,
        i64_fits(pow(a as int, (if b < 0 { -b } else { b as int }) as nat)),
    ensures
        fold(Expr::Pow(Box::new(x), Box::new(y)), sem) == Some(
            if b >= 0 {
                int_const(pow(a as int, b as nat) as i64)
            } else {
                fp_const(sem(FloatOp::Recip(sem(FloatOp::FromInt(pow(a as int, (-b) as nat) as i64)))))
            },
        ),
{
    let n = (if b < 0 { -b } else { b as int });
    assert(n as u32 == n);
}

/// A power whose base does not fold to a number is left as it was, unless its
/// exponent folds to the integer `0` (giving `1`) or `1` (giving the folded base).
pub proof fn lemma_fold_power_other_base(x: Expr, y: Expr, sem: spec_fn(FloatOp) -> u64)
    requires
        fold(x, sem) is Some,
        kind_of(fold(x, sem).unwrap()) == Kind::Other,
        fold(y, sem) is Some,
    ensures
        fold(Expr::Pow(Box::new(x), Box::new(y)), sem) == Some(
            if fold(y, sem) == Some(int_const(0)) {
                int_const(1)
            } else if fold(y, sem) == Some(int_const(1)) {
                fold(x, sem).unwrap()
            } else {
                Expr::Pow(Box::new(x), Box::new(y))
            },
        ),
{
}

/// `v` is a variable of `e`.
pub open spec fn occurs(v: usize, e: Expr) -> bool
    decreases e,
{
    match e {
        Expr::Var(w) => w == v,
        Expr::Add(s) => exists|i: int| 0 <= i < s.len() && occurs(v, #[trigger] s[i]),
        Expr::Mul(s) => exists|i: int| 0 <= i < s.len() && occurs(v, #[trigger] s[i]),
        Expr::Pow(a, b) => occurs(v, *a) || occurs(v, *b),
        Expr::Neg(a) => occurs(v, *a),
        Expr::Ln(a) => occurs(v, *a),
        Expr::Const(_) => false,
    }
}

/// A variable of one of the members gathered while folding the first `k`
/// members of a sum is a variable of one of those members.
proof fn lemma_fold_sum_vars(s: Seq<Expr>, k: nat, v: usize, sem: spec_fn(FloatOp) -> u64)
    requires
        fold_sum(s, k, sem) is Some,
    ensures
        forall|j: int|
            0 <= j < fold_sum(s, k, sem).unwrap().rest.len() && occurs(v, #[trigger] fold_sum(s, k, sem).unwrap().rest[j])
                ==> exists|i: int| 0 <= i < k && occurs(v, #[trigger] s[i]),
    decreases s, k,
{
    if k > 0 {
        let j0 = (k - 1) as nat;
        lemma_fold_sum_vars(s, j0, v, sem);
        lemma_fold_adds_no_variable(s[j0 as int], v, sem);
        let a = fold_sum(s, j0, sem).unwrap();
        let b = fold_sum(s, k, sem).unwrap();
        assert forall|j: int| 0 <= j < b.rest.len() && occurs(v, #[trigger] b.rest[j]) implies exists|i: int|
            0 <= i < k && occurs(v, #[trigger] s[i]) by {
            if j < a.rest.len() && b.rest[j] == a.rest[j] {
                let i = choose|i: int| 0 <= i < j0 && occurs(v, #[trigger] s[i]);
                assert(occurs(v, s[i]));
            } else {
                assert(occurs(v, s[j0 as int]));
            }
        }
    }
}

/// As `lemma_fold_sum_vars`, for a product.
proof fn lemma_fold_prod_vars(s: Seq<Expr>, k: nat, v: usize, sem: spec_fn(FloatOp) -> u64)
    requires
        fold_prod(s, k, sem) matches Some(Some(_)),
    ensures
        forall|j: int|
            0 <= j < fold_prod(s, k, sem).unwrap().unwrap().rest.len() && occurs(
                v,
                #[trigger] fold_prod(s, k, sem).unwrap().unwrap().rest[j],
            ) ==> exists|i: int| 0 <= i < k && occurs(v, #[trigger] s[i]),
    decreases s, k,
{
    if k > 0 {
        let j0 = (k - 1) as nat;
        lemma_fold_prod_vars(s, j0, v, sem);
        lemma_fold_adds_no_variable(s[j0 as int], v, sem);
        let a = fold_prod(s, j0, sem).unwrap().unwrap();
        let b = fold_prod(s, k, sem).unwrap().unwrap();
        assert forall|j: int| 0 <= j < b.rest.len() && occurs(v, #[trigger] b.rest[j]) implies exists|i: int|
            0 <= i < k && occurs(v, #[trigger] s[i]) by {
            if j < a.rest.len() && b.rest[j] == a.rest[j] {
                let i = choose|i: int| 0 <= i < j0 && occurs(v, #[trigger] s[i]);
                assert(occurs(v, s[i]));
            } else {
                assert(occurs(v, s[j0 as int]));
            }
        }
    }
}

/// Folding adds no variable: every variable of the folded expression is a
/// variable of the expression folded.
pub proof fn lemma_fold_adds_no_variable(e: Expr, v: usize, sem: spec_fn(FloatOp) -> u64)
    ensures
        fold(e, sem) is Some && occurs(v, fold(e, sem).unwrap()) ==> occurs(v, e),
    decreases e, 1nat,
{
    if fold(e, sem) is Some && occurs(v, fold(e, sem).unwrap()) {
        match e {
            Expr::Add(s) => {
                let acc = fold_sum(s, s.len(), sem).unwrap();
                lemma_fold_sum_vars(s, s.len(), v, sem);
                let t = sum_members(acc, sem);
                assert forall|j: int| 0 <= j < t.len() && occurs(v, #[trigger] t[j]) implies occurs(v, e) by {
                    if j < acc.rest.len() {
                        assert(t[j] == acc.rest[j]);
                        let i = choose|i: int| 0 <= i < s.len() && occurs(v, #[trigger] s[i]);
                    }
                }
                if t.len() == 1 {
                    assert(occurs(v, t[0]));
                }
            },
            Expr::Mul(s) => {
                if fold_prod(s, s.len(), sem) matches Some(Some(_)) {
                    let acc = fold_prod(s, s.len(), sem).unwrap().unwrap();
                    lemma_fold_prod_vars(s, s.len(), v, sem);
                    let t = prod_members(acc, sem);
                    assert forall|j: int| 0 <= j < t.len() && occurs(v, #[trigger] t[j]) implies occurs(v, e) by {
                        if j < acc.rest.len() {
                            assert(t[j] == acc.rest[j]);
                            let i = choose|i: int| 0 <= i < s.len() && occurs(v, #[trigger] s[i]);
                        }
                    }
                    if t.len() == 1 {
                        assert(occurs(v, t[0]));
                    }
                }
            },
            Expr::Pow(a, b) => {
                lemma_fold_adds_no_variable(*a, v, sem);
                lemma_fold_adds_no_variable(*b, v, sem);
            },
            Expr::Ln(a) => {
                lemma_fold_adds_no_variable(*a, v, sem);
            },
            _ => {},
        }
    }
}

/// The first `k` members of `s`, each folded.
pub open spec fn folded(s: Seq<Expr>, k: nat, sem: spec_fn(FloatOp) -> u64) -> Seq<Expr> {
    Seq::new(k, |i: int| fold(s[i], sem).unwrap())
}

/// The members of `t` that are not numbers, in order.
pub open spec fn others(t: Seq<Expr>) -> Seq<Expr> {
    t.filter(|e: Expr| kind_of(e) == Kind::Other)
}

/// The sum of the integer constants among `t`; `None` when there is none.
pub open spec fn int_total(t: Seq<Expr>) -> Option<int>
    decreases t.len(),
{
    if t.len() == 0 {
        None
    } else {
        let prev = int_total(t.drop_last());
        match t.last() {
            Expr::Const(Constant::Int(i)) => Some(
                match prev {
                    Some(p) => p + i,
                    None => i as int,
                },
            ),
            _ => prev,
        }
    }
}

/// The float sum, left to right from `0.0`, of the float constants among `t`,
/// with `sem` as the float arithmetic; `None` when there is none.
pub open spec fn fp_total(t: Seq<Expr>, sem: spec_fn(FloatOp) -> u64) -> Option<u64>
    decreases t.len(),
{
    if t.len() == 0 {
        None
    } else {
        let prev = fp_total(t.drop_last(), sem);
        match t.last() {
            Expr::Const(Constant::Fp(f)) => Some(
                sem(
                    FloatOp::Add(
                        match prev {
                            Some(p) => p,
                            None => ZERO_BITS,
                        },
                        f,
                    ),
                ),
            ),
            _ => prev,
        }
    }
}

/// The float product, left to right from `1.0`, of the float constants among
/// `t`; `None` when there is none.
pub open spec fn fp_product(t: Seq<Expr>, sem: spec_fn(FloatOp) -> u64) -> Option<u64>
    decreases t.len(),
{
    if t.len() == 0 {
        None
    } else {
        let prev = fp_product(t.drop_last(), sem);
        match t.last() {
            Expr::Const(Constant::Fp(f)) => Some(
                sem(
                    FloatOp::Mul(
                        match prev {
                            Some(p) => p,
                            None => ONE_BITS,
                        },
                        f,
                    ),
                ),
            ),
            _ => prev,
        }
    }
}

/// The product of the integer constants among `t`; `None` when there is none.
pub open spec fn int_product(t: Seq<Expr>) -> Option<int>
    decreases t.len(),
{
    if t.len() == 0 {
        None
    } else {
        let prev = int_product(t.drop_last());
        match t.last() {
            Expr::Const(Constant::Int(i)) => Some(
                match prev {
                    Some(p) => p * i,
                    None => i as int,
                },
            ),
            _ => prev,
        }
    }
}

/// Some member of `t` is a float constant.
pub open spec fn has_fp(t: Seq<Expr>) -> bool {
    exists|j: int| 0 <= j < t.len() && kind_of(#[trigger] t[j]) == Kind::Fp
}

/// What folding the first `k` members of a sum has gathered: the folded members
/// that are not numbers, in order; the sum of the integer ones; whether there
/// was a float one.
pub proof fn lemma_fold_sum_gathers(s: Seq<Expr>, k: nat, sem: spec_fn(FloatOp) -> u64)
    requires
        k <= s.len(),
        fold_sum(s, k, sem) is Some,
    ensures
        fold_sum(s, k, sem).unwrap().rest == others(folded(s, k, sem)),
        match fold_sum(s, k, sem).unwrap().int {
            Some(i) => int_total(folded(s, k, sem)) == Some(i as int),
            None => int_total(folded(s, k, sem)) is None,
        },
        (fold_sum(s, k, sem).unwrap().fp is Some) == has_fp(folded(s, k, sem)),
        fold_sum(s, k, sem).unwrap().fp == fp_total(folded(s, k, sem), sem),
    decreases k,
{
    let t = folded(s, k, sem);
    if k == 0 {
        reveal(Seq::filter);
        assert(others(t) =~= Seq::<Expr>::empty());
    } else {
        let j = (k - 1) as nat;
        lemma_fold_sum_gathers(s, j, sem);
        let t0 = folded(s, j, sem);
        assert(t.drop_last() =~= t0);
        let m = fold(s[j as int], sem).unwrap();
        assert(t.last() == m);
        reveal(Seq::filter);
        if has_fp(t0) {
            let w = choose|w: int| 0 <= w < t0.len() && kind_of(#[trigger] t0[w]) == Kind::Fp;
            assert(t[w] == t0[w]);
        }
        if has_fp(t) && kind_of(m) != Kind::Fp {
            let w = choose|w: int| 0 <= w < t.len() && kind_of(#[trigger] t[w]) == Kind::Fp;
            assert(t0[w] == t[w]);
        }
        if kind_of(m) == Kind::Fp {
            assert(kind_of(t[j as int]) == Kind::Fp);
        }
    }
}

/// Constant folding of a sum: the folded members that are not numbers, in
/// order, then the sum of the integer members (left out when it is `0` and
/// no float member is there) or, with float members, one float constant;
/// `0` when nothing is left and the one member when one is.
pub proof fn lemma_fold_sum_law(s: Seq<Expr>, sem: spec_fn(FloatOp) -> u64)
    requires
        fold(Expr::Add(s), sem) is Some,
    ensures
        fold(Expr::Add(s), sem) == Some(
            crate::visitors::fold_spec::sum_result(sum_members(fold_sum(s, s.len(), sem).unwrap(), sem)),
        ),
        fold_sum(s, s.len(), sem).unwrap().rest == others(folded(s, s.len(), sem)),
        match fold_sum(s, s.len(), sem).unwrap().int {
            Some(i) => int_total(folded(s, s.len(), sem)) == Some(i as int),
            None => int_total(folded(s, s.len(), sem)) is None,
        },
        (fold_sum(s, s.len(), sem).unwrap().fp is Some) == has_fp(folded(s, s.len(), sem)),
        fold_sum(s, s.len(), sem).unwrap().fp == fp_total(folded(s, s.len(), sem), sem),
{
    lemma_fold_sum_gathers(s, s.len(), sem);
}

/// What folding the first `k` members of a product has gathered, when no
/// member folded to the integer zero: the folded members that are not
/// numbers, in order; the product of the integer ones; the float product of
/// the float ones, left to right.
pub proof fn lemma_fold_prod_gathers(s: Seq<Expr>, k: nat, sem: spec_fn(FloatOp) -> u64)
    requires
        k <= s.len(),
        fold_prod(s, k, sem) matches Some(Some(_)),
    ensures
        fold_prod(s, k, sem).unwrap().unwrap().rest == others(folded(s, k, sem)),
        match fold_prod(s, k, sem).unwrap().unwrap().int {
            Some(i) => int_product(folded(s, k, sem)) == Some(i as int),
            None => int_product(folded(s, k, sem)) is None,
        },
        fold_prod(s, k, sem).unwrap().unwrap().fp == fp_product(folded(s, k, sem), sem),
    decreases k,
{
    let t = folded(s, k, sem);
    if k == 0 {
        reveal(Seq::filter);
        assert(others(t) =~= Seq::<Expr>::empty());
    } else {
        let j = (k - 1) as nat;
        assert(fold_prod(s, j, sem) matches Some(Some(_)));
        lemma_fold_prod_gathers(s, j, sem);
        let t0 = folded(s, j, sem);
        assert(t.drop_last() =~= t0);
        let m = fold(s[j as int], sem).unwrap();
        assert(t.last() == m);
        reveal(Seq::filter);
    }
}

/// Constant folding of a product with no member folding to the integer zero:
/// the folded members that are not numbers, in order, then the product of the
/// integer members (left out when it is `1` and no float member is there) or,
/// with float members, one float constant.
pub proof fn lemma_fold_product_law(s: Seq<Expr>, sem: spec_fn(FloatOp) -> u64)
    requires
        fold_prod(s, s.len(), sem) matches Some(Some(_)),
    ensures
        fold(Expr::Mul(s), sem) == crate::visitors::fold_spec::prod_result(
            prod_members(fold_prod(s, s.len(), sem).unwrap().unwrap(), sem),
        ),
        fold_prod(s, s.len(), sem).unwrap().unwrap().rest == others(folded(s, s.len(), sem)),
        match fold_prod(s, s.len(), sem).unwrap().unwrap().int {
            Some(i) => int_product(folded(s, s.len(), sem)) == Some(i as int),
            None => int_product(folded(s, s.len(), sem)) is None,
        },
        fold_prod(s, s.len(), sem).unwrap().unwrap().fp == fp_product(folded(s, s.len(), sem), sem),
{
    lemma_fold_prod_gathers(s, s.len(), sem);
}

} // verus!
