use vstd::prelude::*;

use crate::binary64::{computes, converts, negate_bits, FloatOp, ONE_BITS, ZERO_BITS};
use crate::constant::Constant;
use crate::expr::{int_const, Expr};
use crate::node::{lemma_view_seq, lemma_view_seq_push, view_seq, Node};
use crate::ops::{Addition, Log, Multiplication, Negation, Power};
use crate::visitors::fold_spec::{
    acc_shape, all_other, fold, fold_log, fold_negation, fold_power, fold_prod, fold_sum, i64_fits,
    kind_of, lemma_prod_kind, lemma_sum_kind, prod_consts, prod_members, prod_result, result_kind,
    sum_consts, sum_members, sum_result, Acc, Kind, lemma_fold_sum_none, lemma_fold_prod_none,
    lemma_fold_prod_zero,
};

use vstd::arithmetic::power::{lemma0_pow, lemma1_pow, lemma_pow0, lemma_pow1, lemma_pow_adds, lemma_pow_increases, pow};

verus! {
pub open spec fn abs(x: int) -> int {
    if x < 0 { -x } else { x }
}

/// `|b^e| == |b|^e`.
proof fn lemma_pow_abs(b: int, e: nat)
    ensures
        abs(pow(b, e)) == pow(abs(b), e),
    decreases e,
{
    reveal(pow);
    if e > 0 {
        lemma_pow_abs(b, (e - 1) as nat);
        let p = pow(b, (e - 1) as nat);
        assert(abs(b * p) == abs(b) * abs(p)) by (nonlinear_arith)
            requires
                abs(b) == (if b < 0 { -b } else { b }),
                abs(p) == (if p < 0 { -p } else { p }),
                abs(b * p) == (if b * p < 0 { -(b * p) } else { b * p }),
        ;
    }
}

/// `(-1)^e` is `1` for even `e` and `-1` for odd `e`.
proof fn lemma_pow_minus_one(e: nat)
    ensures
        pow(-1, e) == (if e % 2 == 0 { 1int } else { -1int }),
    decreases e,
{
    reveal(pow);
    if e > 0 {
        lemma_pow_minus_one((e - 1) as nat);
    }
}

/// Once a power of `b` (with `|b| >= 2`) leaves the `i64` range, every higher
/// power does.
proof fn lemma_pow_overflow(b: int, k: nat, e: nat)
    requires
        abs(b) >= 2,
        k <= e,
        !i64_fits(pow(b, k)),
    ensures
        !i64_fits(pow(b, e)),
{
    if k < e {
        let d = (e - k) as nat;
        lemma_pow_adds(b, k, d);
        lemma_pow_abs(b, k);
        lemma_pow_abs(b, e);
        lemma_pow_abs(b, d);
        lemma_pow1(abs(b));
        lemma_pow_increases(abs(b) as nat, 1, d);
        let p = pow(b, k);
        let q = pow(b, d);
        assert(abs(p) >= 0x8000_0000_0000_0000);
        assert(abs(q) >= 2);
        assert(abs(p * q) >= 0x1_0000_0000_0000_0000) by (nonlinear_arith)
            requires
                abs(p) >= 0x8000_0000_0000_0000,
                abs(q) >= 2,
                abs(p) == (if p < 0 { -p } else { p }),
                abs(q) == (if q < 0 { -q } else { q }),
                abs(p * q) == (if p * q < 0 { -(p * q) } else { p * q }),
        ;
    }
}

/// `x` to the power `e` when that fits in an `i64`, else `None`: what
/// `i64::checked_pow` returns.
fn checked_pow(x: i64, e: u32) -> (r: Option<i64>)
    ensures
        r == (if i64_fits(pow(x as int, e as nat)) {
            Some(pow(x as int, e as nat) as i64)
        } else {
            None
        }),
{
    if x == 0 {
        proof {
            lemma_pow0(0);
            if e > 0 {
                lemma0_pow(e as nat);
            }
        }
        return if e == 0 { Some(1) } else { Some(0) };
    }
    if x == 1 {
        proof {
            lemma1_pow(e as nat);
        }
        return Some(1);
    }
    if x == -1 {
        proof {
            lemma_pow_minus_one(e as nat);
        }
        return if e % 2 == 0 { Some(1) } else { Some(-1) };
    }
    let mut acc: i64 = 1;
    let mut k: u32 = 0;
    proof {
        lemma_pow0(x as int);
    }
    while k < e
        invariant
            k <= e,
            acc as int == pow(x as int, k as nat),
            abs(x as int) >= 2,
        decreases e - k,
    {
        proof {
            lemma_pow_adds(x as int, k as nat, 1);
            lemma_pow1(x as int);
        }
        match acc.checked_mul(x) {
            Some(v) => {
                acc = v;
                k = k + 1;
            },
            None => {
                proof {
                    lemma_pow_overflow(x as int, (k + 1) as nat, e as nat);
                }
                return None;
            },
        }
    }
    Some(acc)
}

/// Folds constant sub-expressions.
pub struct ConstantFolder;

/// Folding `e` succeeds whatever the float arithmetic: no integer sum, product
/// or power leaves the `i64` range, no integer is negated or taken as exponent
/// at `i64::MIN`, and no product is left without members. (Whether folding
/// succeeds never depends on float values.)
pub open spec fn foldable(e: Expr) -> bool {
    forall|sem: spec_fn(FloatOp) -> u64| #[trigger] fold(e, sem) is Some
}

/// `arith` accepts every request.
pub open spec fn accepts_all_ops<F: Fn(FloatOp) -> u64>(arith: F) -> bool {
    forall|op: FloatOp| #[trigger] call_requires(arith, (op,))
}

/// `r` is `e` folded with the float arithmetic `arith`: exactly `fold(e, sem)`
/// for every `sem` that `arith` computes, and, whatever the arithmetic, a
/// result exactly where folding succeeds, of the same kind (the same integer, a
/// float, or neither).
pub open spec fn folds_to<F: Fn(FloatOp) -> u64>(arith: F, e: Expr, r: Option<Node>) -> bool {
    &&& forall|sem: spec_fn(FloatOp) -> u64| #[trigger]
        computes(arith, sem) ==> fold(e, sem) == opt_view(r)
    &&& forall|sem: spec_fn(FloatOp) -> u64| #[trigger]
        fold(e, sem) is Some <==> r is Some
    &&& forall|sem: spec_fn(FloatOp) -> u64| #[trigger]
        fold(e, sem) is Some ==> kind_of(fold(e, sem).unwrap()) == kind_of(r.unwrap()@)
}

impl ConstantFolder {
    /// `n` with its constant parts evaluated, `arith` doing the float arithmetic.
    ///
    /// Sums and products gather their integer and float constants into one
    /// trailing constant (dropping an integer `0` from a sum and an integer `1`
    /// from a product), a product with a member that folds to `0` folds to `0`,
    /// powers, negations and logarithms of constants are evaluated; see `fold`.
    /// The result is the model's for every semantics `arith` computes; its kind
    /// (in particular an integer result) is the model's whatever `arith` does.
    pub fn fold<F: Fn(FloatOp) -> u64>(n: &Node, arith: &F) -> (r: Node)
        requires
            accepts_all_ops(*arith),
            foldable(n@),
        ensures
            forall|sem: spec_fn(FloatOp) -> u64| #[trigger]
                computes(*arith, sem) ==> fold(n@, sem) == Some(r@),
            forall|sem: spec_fn(FloatOp) -> u64|
                #![trigger fold(n@, sem)]
                kind_of(fold(n@, sem).unwrap()) == kind_of(r@),
    {
        let r = fold_node(n, arith);
        proof {
            let zero = |op: FloatOp| 0u64;
            assert(fold(n@, zero) is Some);
        }
        r.unwrap()
    }

    /// `n` folded as `fold` folds it, or `None` where folding fails: where an
    /// integer sum, product or power leaves the `i64` range, an integer is
    /// negated or taken as exponent at `i64::MIN`, or a product is left with no
    /// member.
    pub fn try_fold<F: Fn(FloatOp) -> u64>(n: &Node, arith: &F) -> (r: Option<Node>)
        requires
            accepts_all_ops(*arith),
        ensures
            forall|sem: spec_fn(FloatOp) -> u64| #[trigger]
                computes(*arith, sem) ==> fold(n@, sem) == opt_view(r),
            forall|sem: spec_fn(FloatOp) -> u64| #[trigger] fold(n@, sem) is None ==> r is None,
            forall|sem: spec_fn(FloatOp) -> u64| #[trigger]
                fold(n@, sem) is Some ==> r is Some && kind_of(fold(n@, sem).unwrap()) == kind_of(
                    r.unwrap()@,
                ),
    {
        fold_node(n, arith)
    }

    /// The folded `n` when it is a number: the bit pattern of its float value.
    pub fn fold_f64<F: Fn(FloatOp) -> u64>(n: &Node, arith: &F) -> (r: Option<u64>)
        requires
            accepts_all_ops(*arith),
            foldable(n@),
        ensures
            forall|sem: spec_fn(FloatOp) -> u64| #[trigger]
                computes(*arith, sem) ==> r == (match fold(n@, sem) {
                    Some(Expr::Const(Constant::Int(i))) => Some(sem(FloatOp::FromInt(i))),
                    Some(Expr::Const(Constant::Fp(f))) => Some(f),
                    _ => None,
                }),
            forall|sem: spec_fn(FloatOp) -> u64|
                #![trigger fold(n@, sem)]
                (r is None) == (kind_of(fold(n@, sem).unwrap()) == Kind::Other),
    {
        let folded = ConstantFolder::fold(n, arith);
        match folded {
            Node::Constant(Constant::Int(i)) => Some(arith(FloatOp::FromInt(i))),
            Node::Constant(Constant::Fp(f)) => Some(f),
            _ => None,
        }
    }

    /// The folded `n` when it is a number, as an integer; a float is converted
    /// by `to_int`.
    pub fn fold_i64<F: Fn(FloatOp) -> u64, G: Fn(u64) -> i64>(n: &Node, arith: &F, to_int: &G) -> (r:
        Option<i64>)
        requires
            accepts_all_ops(*arith),
            foldable(n@),
            forall|b: u64| call_requires(*to_int, (b,)),
        ensures
            forall|sem: spec_fn(FloatOp) -> u64, conv: spec_fn(u64) -> i64| #[trigger]
                computes(*arith, sem) && #[trigger] converts(*to_int, conv) ==> r == (match fold(
                    n@,
                    sem,
                ) {
                    Some(Expr::Const(Constant::Int(i))) => Some(i),
                    Some(Expr::Const(Constant::Fp(f))) => Some(conv(f)),
                    _ => None,
                }),
            forall|sem: spec_fn(FloatOp) -> u64|
                #![trigger fold(n@, sem)]
                match kind_of(fold(n@, sem).unwrap()) {
                    Kind::Int(i) => r == Some(i),
                    Kind::Fp => r is Some,
                    Kind::Other => r is None,
                },
    {
        let folded = ConstantFolder::fold(n, arith);
        match folded {
            Node::Constant(Constant::Int(i)) => Some(i),
            Node::Constant(Constant::Fp(f)) => Some(to_int(f)),
            _ => None,
        }
    }
}

/// The model of an optional node.
pub open spec fn opt_view(r: Option<Node>) -> Option<Expr> {
    match r {
        Some(n) => Some(n@),
        None => None,
    }
}

fn fold_node<F: Fn(FloatOp) -> u64>(n: &Node, arith: &F) -> (r: Option<Node>)
    requires
        accepts_all_ops(*arith),
    ensures
        folds_to(*arith, n@, r),
    decreases n, 1nat,
{
    match n {
        Node::Addition(a) => fold_addition(a, arith),
        Node::Multiplication(m) => fold_multiplication(m, arith),
        Node::Power(p) => fold_pow(p, arith),
        Node::Negation(g) => {
            let r = fold_neg(g);
            assert forall|sem: spec_fn(FloatOp) -> u64| #[trigger] fold(n@, sem) == opt_view(r) by {}
            r
        },
        Node::Log(l) => {
            let v = match fold_node(&l.val, arith) {
                Some(v) => v,
                None => {
                    assert forall|sem: spec_fn(FloatOp) -> u64| #[trigger] fold(n@, sem) is None by {
                        assert(fold(view_node_of(&l.val), sem) is None);
                    }
                    return None;
                },
            };
            let ghost vv = v@;
            let r = match v {
                Node::Constant(Constant::Int(k)) => {
                    let x = arith(FloatOp::FromInt(k));
                    Node::Constant(Constant::Fp(arith(FloatOp::Log2(x))))
                },
                Node::Constant(Constant::Fp(f)) => Node::Constant(Constant::Fp(arith(FloatOp::Log2(f)))),
                v => Node::Log(Log::new(v)),
            };
            assert forall|sem: spec_fn(FloatOp) -> u64| #[trigger] computes(*arith, sem) implies fold(n@, sem)
                == Some(r@) by {
                assert(fold(view_node_of(&l.val), sem) == Some(vv));
            }
            assert forall|sem: spec_fn(FloatOp) -> u64| #[trigger] fold(n@, sem) is Some implies kind_of(
                fold(n@, sem).unwrap(),
            ) == kind_of(r@) by {
                assert(fold(view_node_of(&l.val), sem) is Some);
                assert(kind_of(fold(view_node_of(&l.val), sem).unwrap()) == kind_of(vv));
            }
            assert forall|sem: spec_fn(FloatOp) -> u64| #[trigger] fold(n@, sem) is Some by {
                assert(fold(view_node_of(&l.val), sem) is Some);
            }
            Some(r)
        },
        Node::Variable(v) => Some(Node::Variable(*v)),
        Node::Constant(c) => Some(Node::Constant(*c)),
    }
}

fn fold_neg(g: &Negation) -> (r: Option<Node>)
    ensures
        fold_negation(g@, view_node_of(&g.val)) == opt_view(r),
{
    match &*g.val {
        Node::Constant(Constant::Int(i)) => {
            if *i == i64::MIN {
                None
            } else {
                Some(Node::Constant(Constant::Int(-*i)))
            }
        },
        Node::Constant(Constant::Fp(f)) => Some(Node::Constant(Constant::Fp(negate_bits(*f)))),
        Node::Negation(_) => Some(g.val.duplicate()),
        _ => Some(Node::Negation(Negation { val: Box::new(g.val.duplicate()) })),
    }
}

pub open spec fn view_node_of(b: &Box<Node>) -> Expr {
    crate::node::view_node(**b)
}

fn fold_pow<F: Fn(FloatOp) -> u64>(p: &Power, arith: &F) -> (r: Option<Node>)
    requires
        accepts_all_ops(*arith),
    ensures
        folds_to(*arith, p@, r),
    decreases p, 0nat,
{
    let a = match fold_node(&p.val, arith) {
        Some(a) => a,
        None => {
            assert forall|sem: spec_fn(FloatOp) -> u64| #[trigger] fold(p@, sem) is None by {
                assert(fold(view_node_of(&p.val), sem) is None);
            }
            return None;
        },
    };
    let b = match fold_node(&p.exponent, arith) {
        Some(b) => b,
        None => {
            assert forall|sem: spec_fn(FloatOp) -> u64| #[trigger] fold(p@, sem) is None by {
                assert(fold(view_node_of(&p.exponent), sem) is None);
            }
            return None;
        },
    };
    let ghost av = a@;
    let ghost bv = b@;
    assert forall|sem: spec_fn(FloatOp) -> u64| #[trigger] fold(p@, sem) is Some implies {
        &&& fold(view_node_of(&p.val), sem) is Some
        &&& fold(view_node_of(&p.exponent), sem) is Some
        &&& kind_of(fold(view_node_of(&p.val), sem).unwrap()) == kind_of(av)
        &&& kind_of(fold(view_node_of(&p.exponent), sem).unwrap()) == kind_of(bv)
        &&& fold(p@, sem) == fold_power(
            p@,
            fold(view_node_of(&p.val), sem).unwrap(),
            fold(view_node_of(&p.exponent), sem).unwrap(),
            sem,
        )
    } by {
        assert(fold(view_node_of(&p.val), sem) is Some);
        assert(fold(view_node_of(&p.exponent), sem) is Some);
    }
    assert forall|sem: spec_fn(FloatOp) -> u64| #[trigger] computes(*arith, sem) implies fold(p@, sem)
        == fold_power(p@, av, bv, sem) by {
        assert(fold(view_node_of(&p.val), sem) == Some(av));
        assert(fold(view_node_of(&p.exponent), sem) == Some(bv));
    }
    let unchanged = Node::Power(
        Power { val: Box::new(p.val.duplicate()), exponent: Box::new(p.exponent.duplicate()) },
    );
    let r = match b {
        Node::Constant(Constant::Int(y)) => match a {
            Node::Constant(Constant::Int(x)) => {
                if y == i64::MIN {
                    None
                } else {
                let ay: i64 = if y < 0 {
                    -y
                } else {
                    y
                };
                let e: u32 = #[verifier::truncate] (ay as u32);
                match checked_pow(x, e) {
                    Some(v) => {
                        if y < 0 {
                            let fv = arith(FloatOp::FromInt(v));
                            Some(Node::Constant(Constant::Fp(arith(FloatOp::Recip(fv)))))
                        } else {
                            Some(Node::Constant(Constant::Int(v)))
                        }
                    },
                    None => None,
                }
                }
            },
            Node::Constant(Constant::Fp(x)) => {
                let yi: i32 = #[verifier::truncate] (y as i32);
                Some(Node::Constant(Constant::Fp(arith(FloatOp::Powi(x, yi)))))
            },
            a => {
                if y == 0 {
                    Some(Node::Constant(Constant::Int(1)))
                } else if y == 1 {
                    Some(a)
                } else {
                    Some(unchanged)
                }
            },
        },
        Node::Constant(Constant::Fp(y)) => match a {
            Node::Constant(Constant::Int(x)) => {
                let fx = arith(FloatOp::FromInt(x));
                Some(Node::Constant(Constant::Fp(arith(FloatOp::Powf(fx, y)))))
            },
            Node::Constant(Constant::Fp(x)) => Some(
                Node::Constant(Constant::Fp(arith(FloatOp::Powf(x, y)))),
            ),
            _ => Some(unchanged),
        },
        _ => Some(unchanged),
    };
    assert forall|sem: spec_fn(FloatOp) -> u64| #[trigger] fold(p@, sem) is Some implies r is Some by {}
    assert forall|sem: spec_fn(FloatOp) -> u64| r is Some implies #[trigger] fold(p@, sem) is Some by {
        assert(fold(view_node_of(&p.val), sem) is Some);
        assert(fold(view_node_of(&p.exponent), sem) is Some);
        assert(kind_of(fold(view_node_of(&p.val), sem).unwrap()) == kind_of(av));
        assert(kind_of(fold(view_node_of(&p.exponent), sem).unwrap()) == kind_of(bv));
    }
    r
}

#[verifier::rlimit(50)]
fn fold_addition<F: Fn(FloatOp) -> u64>(a: &Addition, arith: &F) -> (r: Option<Node>)
    requires
        accepts_all_ops(*arith),
    ensures
        folds_to(*arith, a@, r),
    decreases a, 0nat,
{
    let ghost sq = view_seq(a.members@);
    let mut acc_i: Option<i64> = None;
    let mut acc_f: Option<u64> = None;
    let mut acc_n: Vec<Node> = Vec::new();
    let mut k: usize = 0;
    proof {
        lemma_view_seq(a.members@);
        assert(all_other(view_seq(acc_n@)));
    }
    while k < a.members.len()
        invariant
            accepts_all_ops(*arith),
            sq == view_seq(a.members@),
            sq.len() == a.members@.len(),
            forall|i: int| 0 <= i < sq.len() ==> #[trigger] sq[i] == a.members@[i]@,
            k <= a.members.len(),
            all_other(view_seq(acc_n@)),
            view_seq(acc_n@).len() == acc_n@.len(),
            forall|sem: spec_fn(FloatOp) -> u64| #[trigger]
                computes(*arith, sem) ==> fold_sum(sq, k as nat, sem) == Some(
                    Acc { int: acc_i, fp: acc_f, rest: view_seq(acc_n@) },
                ),
            forall|sem: spec_fn(FloatOp) -> u64| #[trigger]
                fold_sum(sq, k as nat, sem) is Some && acc_shape(
                    fold_sum(sq, k as nat, sem).unwrap(),
                    acc_i,
                    acc_f is Some,
                    acc_n@.len(),
                ),
        decreases a.members.len() - k,
    {
        assert(decreases_to!(a => a.members@[k as int])) by {
            broadcast use vstd::std_specs::vec::axiom_vec_index_decreases;
        }
        let ghost old_i = acc_i;
        let ghost old_f = acc_f;
        let ghost old_n = view_seq(acc_n@);
        let ghost mk = sq[k as int];
        let m = match fold_node(&a.members[k], arith) {
            Some(m) => m,
            None => {
                assert forall|sem: spec_fn(FloatOp) -> u64| #[trigger] fold(a@, sem) is None by {
                    assert(fold(mk, sem) is None);
                    assert(fold_sum(sq, (k + 1) as nat, sem) is None);
                    lemma_fold_sum_none(sq, (k + 1) as nat, sq.len(), sem);
                }
                return None;
            },
        };
        let ghost mv = m@;
        match m {
            Node::Constant(Constant::Int(i)) => {
                let a0: i64 = match acc_i {
                    Some(x) => x,
                    None => 0,
                };
                match a0.checked_add(i) {
                    Some(v) => {
                        acc_i = Some(v);
                    },
                    None => {
                        assert forall|sem: spec_fn(FloatOp) -> u64| #[trigger] fold(a@, sem) is None by {
                            if fold_sum(sq, k as nat, sem) is Some && fold(mk, sem) is Some {
                                assert(kind_of(fold(mk, sem).unwrap()) == kind_of(mv));
                            }
                            assert(fold_sum(sq, (k + 1) as nat, sem) is None);
                            lemma_fold_sum_none(sq, (k + 1) as nat, sq.len(), sem);
                        }
                        return None;
                    },
                }
            },
            Node::Constant(Constant::Fp(f)) => {
                let a0: u64 = match acc_f {
                    Some(x) => x,
                    None => ZERO_BITS,
                };
                acc_f = Some(arith(FloatOp::Add(a0, f)));
            },
            m => {
                proof {
                    lemma_view_seq_push(acc_n@, m);
                    lemma_view_seq(acc_n@.push(m));
                }
                acc_n.push(m);
            },
        }
        proof {
            lemma_view_seq(acc_n@);
            assert forall|sem: spec_fn(FloatOp) -> u64| #[trigger] computes(*arith, sem) implies fold_sum(
                sq,
                (k + 1) as nat,
                sem,
            ) == Some(Acc { int: acc_i, fp: acc_f, rest: view_seq(acc_n@) }) by {
                assert(fold_sum(sq, k as nat, sem) == Some(Acc { int: old_i, fp: old_f, rest: old_n }));
                assert(fold(mk, sem) == Some(mv));
            }
            assert forall|sem: spec_fn(FloatOp) -> u64| #[trigger]
                fold_sum(sq, (k + 1) as nat, sem) is Some && acc_shape(
                fold_sum(sq, (k + 1) as nat, sem).unwrap(),
                acc_i,
                acc_f is Some,
                acc_n@.len(),
            ) by {
                assert(fold_sum(sq, k as nat, sem) is Some);
                assert(fold(mk, sem) is Some);
                assert(kind_of(fold(mk, sem).unwrap()) == kind_of(mv));
                let ra = fold_sum(sq, (k + 1) as nat, sem).unwrap().rest;
                let rb = fold_sum(sq, k as nat, sem).unwrap().rest;
                if kind_of(mv) == Kind::Other {
                    assert(ra == rb.push(fold(mk, sem).unwrap()));
                    assert forall|j: int| 0 <= j < ra.len() implies kind_of(#[trigger] ra[j]) == Kind::Other by {
                        if j < rb.len() {
                            assert(ra[j] == rb[j]);
                        }
                    }
                }
            }
        }
        k = k + 1;
    }
    let ghost n_rest = acc_n@.len();
    let ghost rest_v = view_seq(acc_n@);
    match acc_i {
        Some(i) => match acc_f {
            None => {
                if i != 0 {
                    let c = Node::Constant(Constant::Int(i));
                    proof {
                        lemma_view_seq_push(acc_n@, c);
                    }
                    acc_n.push(c);
                }
            },
            Some(f) => {
                let fi = arith(FloatOp::FromInt(i));
                let c = Node::Constant(Constant::Fp(arith(FloatOp::Add(fi, f))));
                proof {
                    lemma_view_seq_push(acc_n@, c);
                }
                acc_n.push(c);
            },
        },
        None => match acc_f {
            None => {},
            Some(f) => {
                let c = Node::Constant(Constant::Fp(f));
                proof {
                    lemma_view_seq_push(acc_n@, c);
                }
                acc_n.push(c);
            },
        },
    }
    proof {
        lemma_view_seq(acc_n@);
        assert(acc_n@.len() == n_rest + sum_consts(acc_i, acc_f is Some));
        assert forall|sem: spec_fn(FloatOp) -> u64| #[trigger] computes(*arith, sem) implies view_seq(
            acc_n@,
        ) == sum_members(Acc { int: acc_i, fp: acc_f, rest: rest_v }, sem) by {
            assert(view_seq(acc_n@) =~= sum_members(Acc { int: acc_i, fp: acc_f, rest: rest_v }, sem));
        }
        if sum_consts(acc_i, acc_f is Some) == 1 && n_rest == 0 {
            assert(kind_of(view_seq(acc_n@)[0]) == crate::visitors::fold_spec::const_kind(acc_i, acc_f is Some));
        }
        if sum_consts(acc_i, acc_f is Some) == 0 && n_rest == 1 {
            assert(view_seq(acc_n@)[0] == rest_v[0]);
        }
    }
    let r = if acc_n.len() == 0 {
        Node::Constant(Constant::Int(0))
    } else if acc_n.len() == 1 {
        acc_n.pop().unwrap()
    } else {
        Node::Addition(Addition::new(acc_n))
    };
    proof {
        assert(kind_of(r@) == result_kind(n_rest, sum_consts(acc_i, acc_f is Some), acc_i, acc_f is Some, Kind::Int(0)));
        assert forall|sem: spec_fn(FloatOp) -> u64| #[trigger] fold(a@, sem) is Some implies kind_of(
            fold(a@, sem).unwrap(),
        ) == kind_of(r@) by {
            let acc = fold_sum(sq, sq.len(), sem).unwrap();
            lemma_sum_kind(acc, sem);
        }
        assert forall|sem: spec_fn(FloatOp) -> u64| #[trigger] fold(a@, sem) is Some by {
            assert(fold_sum(sq, sq.len(), sem) is Some);
        }
    }
    Some(r)
}

#[verifier::rlimit(50)]
fn fold_multiplication<F: Fn(FloatOp) -> u64>(a: &Multiplication, arith: &F) -> (r: Option<Node>)
    requires
        accepts_all_ops(*arith),
    ensures
        folds_to(*arith, a@, r),
    decreases a, 0nat,
{
    let ghost sq = view_seq(a.members@);
    let mut acc_i: Option<i64> = None;
    let mut acc_f: Option<u64> = None;
    let mut acc_n: Vec<Node> = Vec::new();
    let mut k: usize = 0;
    proof {
        lemma_view_seq(a.members@);
        assert(all_other(view_seq(acc_n@)));
    }
    while k < a.members.len()
        invariant
            accepts_all_ops(*arith),
            sq == view_seq(a.members@),
            sq.len() == a.members@.len(),
            forall|i: int| 0 <= i < sq.len() ==> #[trigger] sq[i] == a.members@[i]@,
            k <= a.members.len(),
            all_other(view_seq(acc_n@)),
            view_seq(acc_n@).len() == acc_n@.len(),
            forall|sem: spec_fn(FloatOp) -> u64| #[trigger]
                computes(*arith, sem) ==> fold_prod(sq, k as nat, sem) == Some(
                    Some(Acc { int: acc_i, fp: acc_f, rest: view_seq(acc_n@) }),
                ),
            forall|sem: spec_fn(FloatOp) -> u64| #[trigger]
                fold_prod(sq, k as nat, sem) is Some && fold_prod(sq, k as nat, sem).unwrap() is Some
                    && acc_shape(
                    fold_prod(sq, k as nat, sem).unwrap().unwrap(),
                    acc_i,
                    acc_f is Some,
                    acc_n@.len(),
                ),
        decreases a.members.len() - k,
    {
        assert(decreases_to!(a => a.members@[k as int])) by {
            broadcast use vstd::std_specs::vec::axiom_vec_index_decreases;
        }
        let ghost old_i = acc_i;
        let ghost old_f = acc_f;
        let ghost old_n = view_seq(acc_n@);
        let ghost mk = sq[k as int];
        let m = match fold_node(&a.members[k], arith) {
            Some(m) => m,
            None => {
                assert forall|sem: spec_fn(FloatOp) -> u64| #[trigger] fold(a@, sem) is None by {
                    assert(fold(mk, sem) is None);
                    if fold_prod(sq, k as nat, sem) is Some {
                        assert(fold_prod(sq, k as nat, sem).unwrap() is Some);
                    }
                    assert(fold_prod(sq, (k + 1) as nat, sem) is None);
                    lemma_fold_prod_none(sq, (k + 1) as nat, sq.len(), sem);
                }
                return None;
            },
        };
        let ghost mv = m@;
        match m {
            Node::Constant(Constant::Int(i)) => {
                if i == 0 {
                    let r = Node::Constant(Constant::Int(0));
                    assert forall|sem: spec_fn(FloatOp) -> u64| #[trigger] computes(*arith, sem) implies fold(a@, sem)
                        == Some(r@) by {
                        assert(fold(mk, sem) == Some(mv));
                        assert(fold_prod(sq, (k + 1) as nat, sem) == Some(None::<Acc>));
                        lemma_fold_prod_zero(sq, (k + 1) as nat, sq.len(), sem);
                    }
                    assert forall|sem: spec_fn(FloatOp) -> u64| #[trigger] fold(a@, sem) is Some implies kind_of(
                        fold(a@, sem).unwrap(),
                    ) == kind_of(r@) by {
                        if fold_prod(sq, k as nat, sem) is None {
                            lemma_fold_prod_none(sq, k as nat, sq.len(), sem);
                        } else if fold(mk, sem) is None {
                            assert(fold_prod(sq, (k + 1) as nat, sem) is None);
                            lemma_fold_prod_none(sq, (k + 1) as nat, sq.len(), sem);
                        } else {
                            assert(kind_of(fold(mk, sem).unwrap()) == kind_of(mv));
                            assert(fold(mk, sem).unwrap() == int_const(0));
                            assert(fold_prod(sq, (k + 1) as nat, sem) == Some(None::<Acc>));
                            lemma_fold_prod_zero(sq, (k + 1) as nat, sq.len(), sem);
                        }
                    }
                    assert forall|sem: spec_fn(FloatOp) -> u64| #[trigger] fold(a@, sem) is Some by {
                        assert(fold_prod(sq, k as nat, sem) is Some);
                        assert(fold(mk, sem) is Some);
                        assert(kind_of(fold(mk, sem).unwrap()) == kind_of(mv));
                        assert(fold_prod(sq, (k + 1) as nat, sem) == Some(None::<Acc>));
                        lemma_fold_prod_zero(sq, (k + 1) as nat, sq.len(), sem);
                    }
                    return Some(r);
                }
                let a0: i64 = match acc_i {
                    Some(x) => x,
                    None => 1,
                };
                match a0.checked_mul(i) {
                    Some(v) => {
                        acc_i = Some(v);
                    },
                    None => {
                        assert forall|sem: spec_fn(FloatOp) -> u64| #[trigger] fold(a@, sem) is None by {
                            if fold_prod(sq, k as nat, sem) is Some && fold(mk, sem) is Some {
                                assert(kind_of(fold(mk, sem).unwrap()) == kind_of(mv));
                            }
                            assert(fold_prod(sq, (k + 1) as nat, sem) is None);
                            lemma_fold_prod_none(sq, (k + 1) as nat, sq.len(), sem);
                        }
                        return None;
                    },
                }
            },
            Node::Constant(Constant::Fp(f)) => {
                let a0: u64 = match acc_f {
                    Some(x) => x,
                    None => ONE_BITS,
                };
                acc_f = Some(arith(FloatOp::Mul(a0, f)));
            },
            m => {
                proof {
                    lemma_view_seq_push(acc_n@, m);
                    lemma_view_seq(acc_n@.push(m));
                }
                acc_n.push(m);
            },
        }
        proof {
            lemma_view_seq(acc_n@);
            assert forall|sem: spec_fn(FloatOp) -> u64| #[trigger] computes(*arith, sem) implies fold_prod(
                sq,
                (k + 1) as nat,
                sem,
            ) == Some(Some(Acc { int: acc_i, fp: acc_f, rest: view_seq(acc_n@) })) by {
                assert(fold_prod(sq, k as nat, sem) == Some(Some(Acc { int: old_i, fp: old_f, rest: old_n })));
                assert(fold(mk, sem) == Some(mv));
            }
            assert forall|sem: spec_fn(FloatOp) -> u64| #[trigger]
                fold_prod(sq, (k + 1) as nat, sem) is Some && fold_prod(sq, (k + 1) as nat, sem).unwrap() is Some
                && acc_shape(
                fold_prod(sq, (k + 1) as nat, sem).unwrap().unwrap(),
                acc_i,
                acc_f is Some,
                acc_n@.len(),
            ) by {
                assert(fold_prod(sq, k as nat, sem) is Some);
                assert(fold(mk, sem) is Some);
                assert(kind_of(fold(mk, sem).unwrap()) == kind_of(mv));
                let ra = fold_prod(sq, (k + 1) as nat, sem).unwrap().unwrap().rest;
                let rb = fold_prod(sq, k as nat, sem).unwrap().unwrap().rest;
                if kind_of(mv) == Kind::Other {
                    assert(ra == rb.push(fold(mk, sem).unwrap()));
                    assert forall|j: int| 0 <= j < ra.len() implies kind_of(#[trigger] ra[j]) == Kind::Other by {
                        if j < rb.len() {
                            assert(ra[j] == rb[j]);
                        }
                    }
                }
            }
        }
        k = k + 1;
    }
    let ghost n_rest = acc_n@.len();
    let ghost rest_v = view_seq(acc_n@);
    match acc_i {
        Some(i) => match acc_f {
            None => {
                if i != 1 {
                    let c = Node::Constant(Constant::Int(i));
                    proof {
                        lemma_view_seq_push(acc_n@, c);
                    }
                    acc_n.push(c);
                }
            },
            Some(f) => {
                let fi = arith(FloatOp::FromInt(i));
                let c = Node::Constant(Constant::Fp(arith(FloatOp::Mul(fi, f))));
                proof {
                    lemma_view_seq_push(acc_n@, c);
                }
                acc_n.push(c);
            },
        },
        None => match acc_f {
            None => {},
            Some(f) => {
                let c = Node::Constant(Constant::Fp(f));
                proof {
                    lemma_view_seq_push(acc_n@, c);
                }
                acc_n.push(c);
            },
        },
    }
    proof {
        lemma_view_seq(acc_n@);
        assert(acc_n@.len() == n_rest + prod_consts(acc_i, acc_f is Some));
        assert forall|sem: spec_fn(FloatOp) -> u64| #[trigger] computes(*arith, sem) implies view_seq(
            acc_n@,
        ) == prod_members(Acc { int: acc_i, fp: acc_f, rest: rest_v }, sem) by {
            assert(view_seq(acc_n@) =~= prod_members(Acc { int: acc_i, fp: acc_f, rest: rest_v }, sem));
        }
        if prod_consts(acc_i, acc_f is Some) == 1 && n_rest == 0 {
            assert(kind_of(view_seq(acc_n@)[0]) == crate::visitors::fold_spec::const_kind(acc_i, acc_f is Some));
        }
        if prod_consts(acc_i, acc_f is Some) == 0 && n_rest == 1 {
            assert(view_seq(acc_n@)[0] == rest_v[0]);
        }
    }
    if acc_n.len() == 0 {
        assert forall|sem: spec_fn(FloatOp) -> u64| #[trigger] fold(a@, sem) is None by {
            if fold_prod(sq, sq.len(), sem) is Some {
                let acc = fold_prod(sq, sq.len(), sem).unwrap().unwrap();
                lemma_prod_kind(acc, sem);
            }
        }
        return None;
    }
    let r = if acc_n.len() == 1 {
        acc_n.pop().unwrap()
    } else {
        Node::Multiplication(Multiplication::new(acc_n))
    };
    proof {
        assert(kind_of(r@) == result_kind(n_rest, prod_consts(acc_i, acc_f is Some), acc_i, acc_f is Some, Kind::Other));
        assert forall|sem: spec_fn(FloatOp) -> u64| #[trigger] fold(a@, sem) is Some implies kind_of(
            fold(a@, sem).unwrap(),
        ) == kind_of(r@) by {
            let acc = fold_prod(sq, sq.len(), sem).unwrap().unwrap();
            lemma_prod_kind(acc, sem);
        }
        assert forall|sem: spec_fn(FloatOp) -> u64| #[trigger] fold(a@, sem) is Some by {
            assert(fold_prod(sq, sq.len(), sem) is Some);
            let acc = fold_prod(sq, sq.len(), sem).unwrap().unwrap();
            lemma_prod_kind(acc, sem);
        }
    }
    Some(r)
}

} // verus!
