use vstd::prelude::*;

use crate::constant::Constant;
use crate::expr::{product, Expr};
use crate::parser::grammar::{
    calculation, climb, combine, digits_end, expr, is_digit, number_end, operand, operator, read_result,
    skip_space, Names,
};

verus! {

/// `t` is a non-empty run of decimal digits.
pub open spec fn digit_run(t: Seq<char>) -> bool {
    t.len() >= 1 && forall|i: int| 0 <= i < t.len() ==> is_digit(#[trigger] t[i])
}

/// The number written `t`, read by `num` as a float constant.
pub open spec fn number(num: spec_fn(Seq<char>) -> u64, t: Seq<char>) -> Expr {
    Expr::Const(Constant::Fp(num(t)))
}

pub open spec fn is_mul_or_div(c: char) -> bool {
    c == '*' || c == '/'
}

pub open spec fn is_add_or_sub(c: char) -> bool {
    c == '+' || c == '-'
}

pub open spec fn is_op_char(c: char) -> bool {
    is_mul_or_div(c) || is_add_or_sub(c) || c == '^'
}

proof fn lemma_digits_end(cs: Seq<char>, p: int, n: int)
    requires
        0 <= p,
        0 <= n,
        p + n <= cs.len(),
        forall|i: int| p <= i < p + n ==> is_digit(#[trigger] cs[i]),
        p + n == cs.len() || !is_digit(cs[p + n]),
    ensures
        digits_end(cs, p) == p + n,
    decreases n,
{
    if n > 0 {
        lemma_digits_end(cs, p + 1, n - 1);
    }
}

/// A run of digits at `p`, followed by the end of the text or by `*` or `/`,
/// is read as one number operand.
proof fn lemma_number_operand(
    cs: Seq<char>,
    p: int,
    n: int,
    names: Names,
    num: spec_fn(Seq<char>) -> u64,
    lenient: bool,
)
    requires
        0 <= p,
        1 <= n,
        p + n <= cs.len(),
        digit_run(cs.subrange(p, p + n)),
        p + n == cs.len() || is_op_char(cs[p + n]),
    ensures
        operand(cs, p, names, num, lenient) == Ok::<(Expr, int, Names), crate::parser::grammar::ParseError>(
            (number(num, cs.subrange(p, p + n)), p + n, names),
        ),
{
    let t = cs.subrange(p, p + n);
    assert forall|i: int| p <= i < p + n implies is_digit(#[trigger] cs[i]) by {
        assert(cs[i] == t[i - p]);
    }
    assert(cs[p] == t[0]);
    lemma_digits_end(cs, p, n);
    assert(skip_space(cs, p) == p);
    assert(number_end(cs, p) == Some(p + n));
}

/// Reading operators stops at the end of the text, or before an operator
/// binding weaker than `min`.
proof fn lemma_climb_stops(
    cs: Seq<char>,
    lhs: Expr,
    pos: int,
    min: int,
    names: Names,
    num: spec_fn(Seq<char>) -> u64,
    lenient: bool,
)
    requires
        0 <= pos <= cs.len(),
        pos == cs.len() || (operator(cs[pos]) matches Some((q, _)) && q < min),
    ensures
        climb(cs, lhs, pos, min, names, num, lenient) == Ok::<(Expr, int, Names), crate::parser::grammar::ParseError>(
            (lhs, pos, names),
        ),
{
    assert(skip_space(cs, pos) == pos);
}

/// Multiplication and division bind equally and group to the left: for any
/// numbers `a`, `b`, `c` (runs of digits) and operators `op1`, `op2` each `*`
/// or `/`, the text `a op1 b op2 c` reads as `(a op1 b) op2 c`. So `a / b * c`
/// is `(a / b) * c` and `a / b / c` is `(a / b) / c`.
pub proof fn lemma_mul_div_group_left(
    a: Seq<char>,
    op1: char,
    b: Seq<char>,
    op2: char,
    c: Seq<char>,
    names: Names,
    num: spec_fn(Seq<char>) -> u64,
    lenient: bool,
)
    requires
        digit_run(a),
        digit_run(b),
        digit_run(c),
        is_mul_or_div(op1),
        is_mul_or_div(op2),
    ensures
        calculation(a + seq![op1] + b + seq![op2] + c, names, num, lenient) == Ok::<(Expr, Names), crate::parser::grammar::ParseError>(
            (
                product(
                    product(number(num, a), number(num, b), op1 == '/'),
                    number(num, c),
                    op2 == '/',
                ),
                names,
            ),
        ),
{
    let cs = a + seq![op1] + b + seq![op2] + c;
    let la = a.len() as int;
    let p2 = la + 1 + b.len();
    let n = cs.len() as int;
    assert(cs.subrange(0, la) =~= a);
    assert(cs.subrange(la + 1, p2) =~= b);
    assert(cs.subrange(p2 + 1, n) =~= c);
    assert(cs[la] == op1);
    assert(cs[p2] == op2);
    let va = number(num, a);
    let vb = number(num, b);
    let vc = number(num, c);
    lemma_number_operand(cs, 0, la, names, num, lenient);
    lemma_number_operand(cs, la + 1, b.len() as int, names, num, lenient);
    lemma_number_operand(cs, p2 + 1, c.len() as int, names, num, lenient);
    assert(operator(op1) == Some((2int, false)));
    assert(operator(op2) == Some((2int, false)));
    lemma_climb_stops(cs, vb, p2, 3, names, num, lenient);
    assert(expr(cs, la + 1, 3, names, num, lenient) == Ok::<(Expr, int, Names), crate::parser::grammar::ParseError>((vb, p2, names)));
    lemma_climb_stops(cs, vc, n, 3, names, num, lenient);
    assert(expr(cs, p2 + 1, 3, names, num, lenient) == Ok::<(Expr, int, Names), crate::parser::grammar::ParseError>((vc, n, names)));
    let ab = product(va, vb, op1 == '/');
    let abc = product(ab, vc, op2 == '/');
    assert(combine(op1, va, vb) == Some(ab));
    assert(combine(op2, ab, vc) == Some(abc));
    lemma_climb_stops(cs, abc, n, 1, names, num, lenient);
    assert(skip_space(cs, p2) == p2);
    assert(climb(cs, ab, p2, 1, names, num, lenient) == climb(cs, abc, n, 1, names, num, lenient));
    assert(skip_space(cs, la) == la);
    assert(climb(cs, va, la, 1, names, num, lenient) == climb(cs, ab, p2, 1, names, num, lenient));
    assert(expr(cs, 0, 1, names, num, lenient) == Ok::<(Expr, int, Names), crate::parser::grammar::ParseError>((abc, n, names)));
    assert(skip_space(cs, n) == n);
}

/// What `parse` reads from such a text: the same grouping to the left.
pub proof fn lemma_parse_mul_div_group_left(
    a: Seq<char>,
    op1: char,
    b: Seq<char>,
    op2: char,
    c: Seq<char>,
    names: Names,
    num: spec_fn(Seq<char>) -> u64,
)
    requires
        digit_run(a),
        digit_run(b),
        digit_run(c),
        is_mul_or_div(op1),
        is_mul_or_div(op2),
    ensures
        read_result(a + seq![op1] + b + seq![op2] + c, names, num) == Ok::<(Expr, Names), crate::parser::grammar::ParseError>(
            (
                product(
                    product(number(num, a), number(num, b), op1 == '/'),
                    number(num, c),
                    op2 == '/',
                ),
                names,
            ),
        ),
{
    lemma_mul_div_group_left(a, op1, b, op2, c, Seq::empty(), num, true);
    lemma_mul_div_group_left(a, op1, b, op2, c, names, num, false);
}

pub open spec fn sum_of(l: Expr, r: Expr, op: char) -> Expr {
    crate::expr::sum(l, r, op == '-')
}

/// Multiplication and division bind more strongly than addition and
/// subtraction, on either side: for numbers `a`, `b`, `c`, the text
/// `a op1 b op2 c` with `op1` one of `+ -` and `op2` one of `* /` reads as
/// `a op1 (b op2 c)`, and with `op1` one of `* /` and `op2` one of `+ -` as
/// `(a op1 b) op2 c`.
pub proof fn lemma_products_bind_tighter(
    a: Seq<char>,
    op1: char,
    b: Seq<char>,
    op2: char,
    c: Seq<char>,
    names: Names,
    num: spec_fn(Seq<char>) -> u64,
    lenient: bool,
)
    requires
        digit_run(a),
        digit_run(b),
        digit_run(c),
        (is_add_or_sub(op1) && is_mul_or_div(op2)) || (is_mul_or_div(op1) && is_add_or_sub(op2)),
    ensures
        calculation(a + seq![op1] + b + seq![op2] + c, names, num, lenient) == Ok::<(Expr, Names), crate::parser::grammar::ParseError>(
            (
                if is_add_or_sub(op1) {
                    sum_of(number(num, a), product(number(num, b), number(num, c), op2 == '/'), op1)
                } else {
                    sum_of(product(number(num, a), number(num, b), op1 == '/'), number(num, c), op2)
                },
                names,
            ),
        ),
{
    let cs = a + seq![op1] + b + seq![op2] + c;
    let la = a.len() as int;
    let p2 = la + 1 + b.len();
    let n = cs.len() as int;
    assert(cs.subrange(0, la) =~= a);
    assert(cs.subrange(la + 1, p2) =~= b);
    assert(cs.subrange(p2 + 1, n) =~= c);
    assert(cs[la] == op1);
    assert(cs[p2] == op2);
    let va = number(num, a);
    let vb = number(num, b);
    let vc = number(num, c);
    lemma_number_operand(cs, 0, la, names, num, lenient);
    lemma_number_operand(cs, la + 1, b.len() as int, names, num, lenient);
    lemma_number_operand(cs, p2 + 1, c.len() as int, names, num, lenient);
    assert(skip_space(cs, la) == la);
    assert(skip_space(cs, p2) == p2);
    assert(skip_space(cs, n) == n);
    if is_add_or_sub(op1) {
        assert(operator(op1) == Some((1int, false)));
        assert(operator(op2) == Some((2int, false)));
        let bc = product(vb, vc, op2 == '/');
        let abc = sum_of(va, bc, op1);
        lemma_climb_stops(cs, vc, n, 3, names, num, lenient);
        assert(expr(cs, p2 + 1, 3, names, num, lenient) == Ok::<(Expr, int, Names), crate::parser::grammar::ParseError>((vc, n, names)));
        assert(combine(op2, vb, vc) == Some(bc));
        lemma_climb_stops(cs, bc, n, 2, names, num, lenient);
        assert(climb(cs, vb, p2, 2, names, num, lenient) == climb(cs, bc, n, 2, names, num, lenient));
        assert(expr(cs, la + 1, 2, names, num, lenient) == Ok::<(Expr, int, Names), crate::parser::grammar::ParseError>((bc, n, names)));
        assert(combine(op1, va, bc) == Some(abc));
        lemma_climb_stops(cs, abc, n, 1, names, num, lenient);
        assert(climb(cs, va, la, 1, names, num, lenient) == climb(cs, abc, n, 1, names, num, lenient));
        assert(expr(cs, 0, 1, names, num, lenient) == Ok::<(Expr, int, Names), crate::parser::grammar::ParseError>((abc, n, names)));
    } else {
        assert(operator(op1) == Some((2int, false)));
        assert(operator(op2) == Some((1int, false)));
        let ab = product(va, vb, op1 == '/');
        let abc = sum_of(ab, vc, op2);
        lemma_climb_stops(cs, vb, p2, 3, names, num, lenient);
        assert(expr(cs, la + 1, 3, names, num, lenient) == Ok::<(Expr, int, Names), crate::parser::grammar::ParseError>((vb, p2, names)));
        assert(combine(op1, va, vb) == Some(ab));
        lemma_climb_stops(cs, vc, n, 2, names, num, lenient);
        assert(expr(cs, p2 + 1, 2, names, num, lenient) == Ok::<(Expr, int, Names), crate::parser::grammar::ParseError>((vc, n, names)));
        assert(combine(op2, ab, vc) == Some(abc));
        lemma_climb_stops(cs, abc, n, 1, names, num, lenient);
        assert(climb(cs, ab, p2, 1, names, num, lenient) == climb(cs, abc, n, 1, names, num, lenient));
        assert(climb(cs, va, la, 1, names, num, lenient) == climb(cs, ab, p2, 1, names, num, lenient));
        assert(expr(cs, 0, 1, names, num, lenient) == Ok::<(Expr, int, Names), crate::parser::grammar::ParseError>((abc, n, names)));
    }
}

/// Powers group to the right: for numbers `a`, `b`, `c`, the text `a^b^c`
/// reads as `a^(b^c)`.
pub proof fn lemma_powers_group_right(
    a: Seq<char>,
    b: Seq<char>,
    c: Seq<char>,
    names: Names,
    num: spec_fn(Seq<char>) -> u64,
    lenient: bool,
)
    requires
        digit_run(a),
        digit_run(b),
        digit_run(c),
    ensures
        calculation(a + seq!['^'] + b + seq!['^'] + c, names, num, lenient) == Ok::<(Expr, Names), crate::parser::grammar::ParseError>(
            (crate::expr::pow(number(num, a), crate::expr::pow(number(num, b), number(num, c))), names),
        ),
{
    let cs = a + seq!['^'] + b + seq!['^'] + c;
    let la = a.len() as int;
    let p2 = la + 1 + b.len();
    let n = cs.len() as int;
    assert(cs.subrange(0, la) =~= a);
    assert(cs.subrange(la + 1, p2) =~= b);
    assert(cs.subrange(p2 + 1, n) =~= c);
    assert(cs[la] == '^');
    assert(cs[p2] == '^');
    let va = number(num, a);
    let vb = number(num, b);
    let vc = number(num, c);
    lemma_number_operand(cs, 0, la, names, num, lenient);
    lemma_number_operand(cs, la + 1, b.len() as int, names, num, lenient);
    lemma_number_operand(cs, p2 + 1, c.len() as int, names, num, lenient);
    assert(skip_space(cs, la) == la);
    assert(skip_space(cs, p2) == p2);
    assert(skip_space(cs, n) == n);
    assert(operator('^') == Some((3int, true)));
    let bc = crate::expr::pow(vb, vc);
    let abc = crate::expr::pow(va, bc);
    lemma_climb_stops(cs, vc, n, 3, names, num, lenient);
    assert(expr(cs, p2 + 1, 3, names, num, lenient) == Ok::<(Expr, int, Names), crate::parser::grammar::ParseError>((vc, n, names)));
    assert(combine('^', vb, vc) == Some(bc));
    lemma_climb_stops(cs, bc, n, 3, names, num, lenient);
    assert(climb(cs, vb, p2, 3, names, num, lenient) == climb(cs, bc, n, 3, names, num, lenient));
    assert(expr(cs, la + 1, 3, names, num, lenient) == Ok::<(Expr, int, Names), crate::parser::grammar::ParseError>((bc, n, names)));
    assert(combine('^', va, bc) == Some(abc));
    lemma_climb_stops(cs, abc, n, 1, names, num, lenient);
    assert(climb(cs, va, la, 1, names, num, lenient) == climb(cs, abc, n, 1, names, num, lenient));
    assert(expr(cs, 0, 1, names, num, lenient) == Ok::<(Expr, int, Names), crate::parser::grammar::ParseError>((abc, n, names)));
}

} // verus!
