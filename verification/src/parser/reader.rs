use vstd::prelude::*;

use crate::context::Context;
use crate::expr::Expr;
use crate::node::{lemma_view_seq, lemma_view_seq_push, view_seq, Node};
use crate::ops::{Power, Variable};
use crate::parser::grammar::{
    argument_list, arguments, at, builds, builds_line, calculation, line, line_result, read_result, Line, climb, combine, digit_at, digits_end, exp_name, expr,
    is_digit, is_letter, is_name_char, is_space, name_end, number_end, operand, operator, skip_space,
    Names, ParseError,
};
use crate::text::push_char;
use crate::constant::Constant;
use crate::visitors::constant_folder::opt_view;

verus! {

/// `num` reads every number text `t` as the binary64 bit pattern `sem(t)`.
pub open spec fn reads<P: Fn(&str) -> u64>(num: P, sem: spec_fn(Seq<char>) -> u64) -> bool {
    forall|t: &str, r: u64| #[trigger] call_ensures(num, (t,), r) ==> r == sem(t@)
}

pub open spec fn accepts_all<P: Fn(&str) -> u64>(num: P) -> bool {
    forall|t: &str| #[trigger] call_requires(num, (t,))
}

/// The names before are a prefix of the names after.
pub open spec fn extends(old_names: Names, new_names: Names) -> bool {
    &&& old_names.len() <= new_names.len()
    &&& forall|i: int| 0 <= i < old_names.len() ==> #[trigger] new_names[i] == old_names[i]
}

fn is_space_char(c: char) -> (b: bool)
    ensures
        b == is_space(c),
{
    c == ' ' || c == '\t'
}

fn is_letter_char(c: char) -> (b: bool)
    ensures
        b == is_letter(c),
{
    ('a' <= c && c <= 'z') || ('A' <= c && c <= 'Z')
}

fn is_digit_char(c: char) -> (b: bool)
    ensures
        b == is_digit(c),
{
    '0' <= c && c <= '9'
}

fn at_char(cs: &Vec<char>, pos: usize, c: char) -> (b: bool)
    ensures
        b == at(cs@, pos as int, c),
{
    pos < cs.len() && cs[pos] == c
}

fn skip_spaces(cs: &Vec<char>, pos: usize) -> (r: usize)
    requires
        pos <= cs.len(),
    ensures
        r as int == skip_space(cs@, pos as int),
        pos <= r <= cs.len(),
    decreases cs.len() - pos,
{
    if pos < cs.len() && is_space_char(cs[pos]) {
        skip_spaces(cs, pos + 1)
    } else {
        pos
    }
}

fn name_end_at(cs: &Vec<char>, pos: usize) -> (r: usize)
    requires
        pos <= cs.len(),
    ensures
        r as int == name_end(cs@, pos as int),
        pos <= r <= cs.len(),
    decreases cs.len() - pos,
{
    if pos < cs.len() && (is_letter_char(cs[pos]) || is_digit_char(cs[pos]) || cs[pos] == '_') {
        name_end_at(cs, pos + 1)
    } else {
        pos
    }
}

fn digits_end_at(cs: &Vec<char>, pos: usize) -> (r: usize)
    requires
        pos <= cs.len(),
    ensures
        r as int == digits_end(cs@, pos as int),
        pos <= r <= cs.len(),
        digit_at(cs@, pos as int) ==> r > pos,
    decreases cs.len() - pos,
{
    if pos < cs.len() && is_digit_char(cs[pos]) {
        digits_end_at(cs, pos + 1)
    } else {
        pos
    }
}

fn number_end_at(cs: &Vec<char>, pos: usize) -> (r: Option<usize>)
    requires
        pos < cs.len(),
    ensures
        match r {
            Some(q) => number_end(cs@, pos as int) == Some(q as int) && pos < q <= cs.len(),
            None => number_end(cs@, pos as int) is None,
        },
{
    let p = if at_char(cs, pos, '-') {
        pos + 1
    } else {
        pos
    };
    if !(p < cs.len() && is_digit_char(cs[p])) {
        return None;
    }
    let q = digits_end_at(cs, p);
    let r = if at_char(cs, q, '.') {
        digits_end_at(cs, q + 1)
    } else {
        q
    };
    if at_char(cs, r, 'e') || at_char(cs, r, 'E') {
        let s = if at_char(cs, r + 1, '-') {
            r + 2
        } else {
            r + 1
        };
        if s < cs.len() && is_digit_char(cs[s]) {
            Some(digits_end_at(cs, s))
        } else {
            Some(r)
        }
    } else {
        Some(r)
    }
}

fn operator_of(c: char) -> (r: Option<(u32, bool)>)
    ensures
        match r {
            Some((p, right)) => operator(c) == Some((p as int, right)),
            None => operator(c) is None,
        },
{
    if c == '+' || c == '-' {
        Some((1, false))
    } else if c == '*' || c == '/' {
        Some((2, false))
    } else if c == '^' {
        Some((3, true))
    } else {
        None
    }
}

fn combine_nodes(op: char, lhs: Node, rhs: Node) -> (r: Option<Node>)
    ensures
        opt_view(r) == combine(op, lhs@, rhs@),
{
    let lhs_sum = matches!(lhs, Node::Addition(_));
    let rhs_sum = matches!(rhs, Node::Addition(_));
    if op == '+' {
        if lhs_sum || rhs_sum {
            None
        } else {
            Some(lhs + rhs)
        }
    } else if op == '-' {
        if lhs_sum {
            None
        } else {
            Some(lhs - rhs)
        }
    } else if op == '*' {
        Some(lhs * rhs)
    } else if op == '/' {
        Some(lhs / rhs)
    } else {
        Some(lhs ^ rhs)
    }
}

/// The characters `cs[from..to]` as a string.
fn text_of(cs: &Vec<char>, from: usize, to: usize) -> (s: String)
    requires
        from <= to <= cs.len(),
    ensures
        s@ == cs@.subrange(from as int, to as int),
{
    let mut s = String::new();
    let mut i = from;
    while i < to
        invariant
            from <= i <= to <= cs.len(),
            s@ == cs@.subrange(from as int, i as int),
        decreases to - i,
    {
        push_char(&mut s, cs[i]);
        assert(cs@.subrange(from as int, i + 1) =~= cs@.subrange(from as int, i as int).push(cs[i as int]));
        i = i + 1;
    }
    s
}

pub open spec fn expr_matches(
    r: Result<(Node, usize), ParseError>,
    spec: Result<(Expr, int, Names), ParseError>,
    names: Names,
) -> bool {
    match spec {
        Ok((e, q, n2)) => r matches Ok((node, q2)) && node@ == e && q2 as int == q && names == n2,
        Err(err) => r == Err::<(Node, usize), ParseError>(err),
    }
}

fn read_expr<P: Fn(&str) -> u64>(cs: &Vec<char>, pos: usize, min: u32, ctx: &mut Context, num: &P, lenient: bool) -> (r:
    Result<(Node, usize), ParseError>)
    requires
        pos <= cs.len(),
        accepts_all(*num),
    ensures
        final(ctx).view().values == old(ctx).view().values,
        extends(old(ctx).view().names, final(ctx).view().names),
        r matches Ok((_, q)) ==> q <= cs.len(),
        forall|sem: spec_fn(Seq<char>) -> u64| #[trigger]
            reads(*num, sem) ==> expr_matches(
                r,
                expr(cs@, pos as int, min as int, old(ctx).view().names, sem, lenient),
                final(ctx).view().names,
            ),
    decreases cs.len() - pos, 3int,
{
    let ghost names0 = ctx.view().names;
    match read_operand(cs, pos, ctx, num, lenient) {
        Ok((lhs, q)) => {
            if q <= pos || q > cs.len() {
                Err(ParseError::Syntax(pos))
            } else {
                let ghost names1 = ctx.view().names;
                let r = read_climb(cs, lhs, q, min, ctx, num, lenient);
                r
            }
        },
        Err(e) => Err(e),
    }
}

fn read_climb<P: Fn(&str) -> u64>(
    cs: &Vec<char>,
    lhs: Node,
    pos: usize,
    min: u32,
    ctx: &mut Context,
    num: &P,
    lenient: bool,
) -> (r: Result<(Node, usize), ParseError>)
    requires
        pos <= cs.len(),
        accepts_all(*num),
    ensures
        final(ctx).view().values == old(ctx).view().values,
        extends(old(ctx).view().names, final(ctx).view().names),
        r matches Ok((_, q)) ==> q <= cs.len(),
        forall|sem: spec_fn(Seq<char>) -> u64| #[trigger]
            reads(*num, sem) ==> expr_matches(
                r,
                climb(cs@, lhs@, pos as int, min as int, old(ctx).view().names, sem, lenient),
                final(ctx).view().names,
            ),
    decreases cs.len() - pos, 2int,
{
    let ghost names0 = ctx.view().names;
    let ghost lv = lhs@;
    let p = skip_spaces(cs, pos);
    if !(p < cs.len()) {
        return Ok((lhs, pos));
    }
    match operator_of(cs[p]) {
        Some((prec, right)) => {
            if prec < min {
                Ok((lhs, pos))
            } else {
                let next = if right {
                    prec
                } else {
                    prec + 1
                };
                match read_expr(cs, p + 1, next, ctx, num, lenient) {
                    Ok((rhs, q)) => {
                        if q <= p || q > cs.len() {
                            Err(ParseError::Syntax(p))
                        } else {
                            let ghost names1 = ctx.view().names;
                            let ghost rv = rhs@;
                            match combine_nodes(cs[p], lhs, rhs) {
                                Some(combined) => read_climb(cs, combined, q, min, ctx, num, lenient),
                                None => if lenient {
                                    read_climb(cs, Node::Constant(Constant::Int(0)), q, min, ctx, num, lenient)
                                } else {
                                    Err(ParseError::NestedSum(p))
                                },
                            }
                        }
                    },
                    Err(e) => Err(e),
                }
            }
        },
        None => Ok((lhs, pos)),
    }
}

fn read_operand<P: Fn(&str) -> u64>(cs: &Vec<char>, pos: usize, ctx: &mut Context, num: &P, lenient: bool) -> (r:
    Result<(Node, usize), ParseError>)
    requires
        pos <= cs.len(),
        accepts_all(*num),
    ensures
        final(ctx).view().values == old(ctx).view().values,
        extends(old(ctx).view().names, final(ctx).view().names),
        r matches Ok((_, q)) ==> q <= cs.len(),
        forall|sem: spec_fn(Seq<char>) -> u64| #[trigger]
            reads(*num, sem) ==> expr_matches(
                r,
                operand(cs@, pos as int, old(ctx).view().names, sem, lenient),
                final(ctx).view().names,
            ),
    decreases cs.len() - pos, 1int,
{
    let ghost names0 = ctx.view().names;
    let p = skip_spaces(cs, pos);
    if p >= cs.len() {
        return Err(ParseError::Syntax(p));
    }
    let c = cs[p];
    if c == '(' {
        match read_expr(cs, p + 1, 1, ctx, num, lenient) {
            Ok((e, q)) => {
                let r = skip_spaces(cs, q);
                if q > p && at_char(cs, r, ')') && r >= q {
                    Ok((e, r + 1))
                } else {
                    Err(ParseError::Syntax(r))
                }
            },
            Err(e) => Err(e),
        }
    } else if is_letter_char(c) {
        let q = name_end_at(cs, p);
        let r = skip_spaces(cs, q);
        if q > p && r >= q && at_char(cs, r, '(') {
            match read_arguments(cs, r + 1, ctx, num, lenient) {
                Ok((args, t)) => {
                    let is_exp = q - p == 3 && cs[p] == 'e' && cs[p + 1] == 'x' && cs[p + 2] == 'p';
                    proof {
                        if q - p == 3 {
                            assert(is_exp == (cs@.subrange(p as int, q as int) =~= exp_name()));
                        } else {
                            assert(cs@.subrange(p as int, q as int).len() != exp_name().len());
                        }
                    }
                    if !(t > r) {
                        Err(ParseError::Syntax(r))
                    } else if !is_exp {
                        if lenient {
                            Ok((Node::Constant(Constant::Int(0)), t))
                        } else {
                            Err(ParseError::UnknownFunction)
                        }
                    } else if args.len() != 1 {
                        proof {
                            lemma_view_seq(args@);
                        }
                        if lenient {
                            Ok((Node::Constant(Constant::Int(0)), t))
                        } else {
                            Err(ParseError::WrongNumberArguments)
                        }
                    } else {
                        proof {
                            lemma_view_seq(args@);
                        }
                        let mut args = args;
                        let a = args.remove(0);
                        Ok((Node::Power(Power::exp(a)), t))
                    }
                },
                Err(e) => Err(e),
            }
        } else {
            let name = text_of(cs, p, q);
            let v = ctx.new_var(name);
            proof {
                crate::laws::context::lemma_register_names(names0, cs@.subrange(p as int, q as int));
            }
            Ok((Node::Variable(v), q))
        }
    } else if c == '-' || is_digit_char(c) {
        match number_end_at(cs, p) {
            Some(q) => {
                let t = text_of(cs, p, q);
                let bits = num(t.as_str());
                Ok((Node::Constant(Constant::Fp(bits)), q))
            },
            None => Err(ParseError::Syntax(p)),
        }
    } else {
        Err(ParseError::Syntax(p))
    }
}

fn read_arguments<P: Fn(&str) -> u64>(cs: &Vec<char>, pos: usize, ctx: &mut Context, num: &P, lenient: bool) -> (r:
    Result<(Vec<Node>, usize), ParseError>)
    requires
        pos <= cs.len(),
        accepts_all(*num),
    ensures
        final(ctx).view().values == old(ctx).view().values,
        extends(old(ctx).view().names, final(ctx).view().names),
        r matches Ok((_, q)) ==> q <= cs.len(),
        forall|sem: spec_fn(Seq<char>) -> u64| #[trigger]
            reads(*num, sem) ==> match arguments(cs@, pos as int, old(ctx).view().names, sem, lenient) {
                Ok((args, q, n2)) => r matches Ok((v, q2)) && view_seq(v@) == args && q2 as int == q
                    && final(ctx).view().names == n2,
                Err(err) => r == Err::<(Vec<Node>, usize), ParseError>(err),
            },
    decreases cs.len() - pos, 5int,
{
    let p = skip_spaces(cs, pos);
    if at_char(cs, p, ')') {
        Ok((Vec::new(), p + 1))
    } else {
        read_argument_list(cs, pos, Vec::new(), ctx, num, lenient)
    }
}

fn read_argument_list<P: Fn(&str) -> u64>(
    cs: &Vec<char>,
    pos: usize,
    acc: Vec<Node>,
    ctx: &mut Context,
    num: &P,
    lenient: bool,
) -> (r: Result<(Vec<Node>, usize), ParseError>)
    requires
        pos <= cs.len(),
        accepts_all(*num),
    ensures
        final(ctx).view().values == old(ctx).view().values,
        extends(old(ctx).view().names, final(ctx).view().names),
        r matches Ok((_, q)) ==> q <= cs.len(),
        forall|sem: spec_fn(Seq<char>) -> u64| #[trigger]
            reads(*num, sem) ==> match argument_list(
                cs@,
                pos as int,
                view_seq(acc@),
                old(ctx).view().names,
                sem,
                lenient,
            ) {
                Ok((args, q, n2)) => r matches Ok((v, q2)) && view_seq(v@) == args && q2 as int == q
                    && final(ctx).view().names == n2,
                Err(err) => r == Err::<(Vec<Node>, usize), ParseError>(err),
            },
    decreases cs.len() - pos, 4int,
{
    let ghost names0 = ctx.view().names;
    let ghost accv = view_seq(acc@);
    match read_expr(cs, pos, 1, ctx, num, lenient) {
        Ok((e, q)) => {
            let r = skip_spaces(cs, q);
            if !(pos < q && q <= r) {
                Err(ParseError::Syntax(pos))
            } else {
                let mut acc = acc;
                proof {
                    lemma_view_seq_push(acc@, e);
                }
                acc.push(e);
                if at_char(cs, r, ',') {
                    let ghost names1 = ctx.view().names;
                    let res = read_argument_list(cs, r + 1, acc, ctx, num, lenient);
                    res
                } else if at_char(cs, r, ')') {
                    Ok((acc, r + 1))
                } else {
                    Err(ParseError::Syntax(r))
                }
            }
        },
        Err(e) => Err(e),
    }
}

/// `text` read as a whole expression, as `calculation` reads it.
fn read_calculation<P: Fn(&str) -> u64>(text: &Vec<char>, ctx: &mut Context, num: &P, lenient: bool) -> (r: Result<Node, ParseError>)
    requires
        accepts_all(*num),
    ensures
        final(ctx).view().values == old(ctx).view().values,
        extends(old(ctx).view().names, final(ctx).view().names),
        forall|sem: spec_fn(Seq<char>) -> u64| #[trigger]
            reads(*num, sem) ==> match calculation(text@, old(ctx).view().names, sem, lenient) {
                Ok((e, n2)) => r matches Ok(node) && node@ == e && final(ctx).view().names == n2,
                Err(err) => r == Err::<Node, ParseError>(err),
            },
{
    match read_expr(text, 0, 1, ctx, num, lenient) {
        Ok((e, q)) => {
            let r = skip_spaces(text, q);
            if r == text.len() {
                Ok(e)
            } else {
                Err(ParseError::Syntax(r))
            }
        },
        Err(e) => Err(e),
    }
}

/// Reads `text` as an expression (see `calculation` for the grammar), numbering
/// its variables by name in `ctx` and reading its numbers with `num`.
///
/// Every number is read as a float. The names of the variables met are
/// registered in `ctx` as `Context::new_var` registers them, in the order met.
/// A text that does not follow the grammar gives its first syntax error. The
/// text must not call a function other than `exp`, call `exp` with other than
/// one argument, or make a sum an operand of `+` (or the left operand of `-`);
/// `try_parse` reports those as errors.
pub fn parse<P: Fn(&str) -> u64>(text: &Vec<char>, ctx: &mut Context, num: &P) -> (r: Result<Node, ParseError>)
    requires
        accepts_all(*num),
        forall|sem: spec_fn(Seq<char>) -> u64| #[trigger] builds(text@, old(ctx).view().names, sem),
    ensures
        final(ctx).view().values == old(ctx).view().values,
        extends(old(ctx).view().names, final(ctx).view().names),
        forall|sem: spec_fn(Seq<char>) -> u64| #[trigger]
            reads(*num, sem) ==> match read_result(text@, old(ctx).view().names, sem) {
                Ok((e, n2)) => r matches Ok(node) && node@ == e && final(ctx).view().names == n2,
                Err(err) => r == Err::<Node, ParseError>(err),
            },
{
    try_parse(text, ctx, num)
}

/// Reads `text` as `parse` does, and reports as errors the calls of unknown
/// functions, calls of `exp` with other than one argument, and sums made
/// operands of `+` (or left operands of `-`) in a text that follows the
/// grammar.
pub fn try_parse<P: Fn(&str) -> u64>(text: &Vec<char>, ctx: &mut Context, num: &P) -> (r: Result<Node, ParseError>)
    requires
        accepts_all(*num),
    ensures
        final(ctx).view().values == old(ctx).view().values,
        extends(old(ctx).view().names, final(ctx).view().names),
        forall|sem: spec_fn(Seq<char>) -> u64| #[trigger]
            reads(*num, sem) ==> match read_result(text@, old(ctx).view().names, sem) {
                Ok((e, n2)) => r matches Ok(node) && node@ == e && final(ctx).view().names == n2,
                Err(err) => r == Err::<Node, ParseError>(err),
            },
{
    let mut scratch = Context::new();
    if let Err(e) = read_calculation(text, &mut scratch, num, true) {
        return Err(e);
    }
    read_calculation(text, ctx, num, false)
}

/// What a line of input asks for.
#[derive(Debug, PartialEq)]
pub enum UserInput {
    /// Give the variable the expression as its value.
    Assignment(Variable, Node),
    /// Show the expression.
    Expr(Node),
}

pub open spec fn input_matches(r: UserInput, l: Line) -> bool {
    match (r, l) {
        (UserInput::Assignment(v, n), Line::Assignment(id, e)) => v.0 == id && n@ == e,
        (UserInput::Expr(n), Line::Expression(e)) => n@ == e,
        _ => false,
    }
}

/// `text` read as a line, as `line` reads it.
fn read_line<P: Fn(&str) -> u64>(text: &Vec<char>, ctx: &mut Context, num: &P, lenient: bool) -> (r: Result<
    UserInput,
    ParseError,
>)
    requires
        accepts_all(*num),
    ensures
        final(ctx).view().values == old(ctx).view().values,
        extends(old(ctx).view().names, final(ctx).view().names),
        forall|sem: spec_fn(Seq<char>) -> u64| #[trigger]
            reads(*num, sem) ==> match line(text@, old(ctx).view().names, sem, lenient) {
                Ok((l, n2)) => r matches Ok(u) && input_matches(u, l) && final(ctx).view().names == n2,
                Err(err) => r == Err::<UserInput, ParseError>(err),
            },
{
    let ghost names0 = ctx.view().names;
    let p = skip_spaces(text, 0);
    let q = name_end_at(text, p);
    let r = skip_spaces(text, q);
    if p < text.len() && is_letter_char(text[p]) && p < q && at_char(text, r, '=') {
        let name = text_of(text, p, q);
        let v = ctx.new_var(name);
        proof {
            crate::laws::context::lemma_register_names(names0, text@.subrange(p as int, q as int));
        }
        match read_expr(text, r + 1, 1, ctx, num, lenient) {
            Ok((e, t)) => {
                let u = skip_spaces(text, t);
                if u == text.len() {
                    Ok(UserInput::Assignment(v, e))
                } else {
                    Err(ParseError::Syntax(u))
                }
            },
            Err(e) => Err(e),
        }
    } else {
        match read_calculation(text, ctx, num, lenient) {
            Ok(e) => Ok(UserInput::Expr(e)),
            Err(e) => Err(e),
        }
    }
}

/// Reads a line of input (see `line` for the grammar), numbering its variables
/// by name in `ctx` and reading its numbers with `num`. A line that does not
/// follow the grammar gives its first syntax error; the line must not hold
/// what `parse` leaves out (`try_parse_line` reports those as errors).
pub fn parse_line<P: Fn(&str) -> u64>(text: &Vec<char>, ctx: &mut Context, num: &P) -> (r: Result<
    UserInput,
    ParseError,
>)
    requires
        accepts_all(*num),
        forall|sem: spec_fn(Seq<char>) -> u64| #[trigger] builds_line(text@, old(ctx).view().names, sem),
    ensures
        final(ctx).view().values == old(ctx).view().values,
        extends(old(ctx).view().names, final(ctx).view().names),
        forall|sem: spec_fn(Seq<char>) -> u64| #[trigger]
            reads(*num, sem) ==> match line_result(text@, old(ctx).view().names, sem) {
                Ok((l, n2)) => r matches Ok(u) && input_matches(u, l) && final(ctx).view().names == n2,
                Err(err) => r == Err::<UserInput, ParseError>(err),
            },
{
    try_parse_line(text, ctx, num)
}

/// Reads a line as `parse_line` does, and reports as errors what `try_parse`
/// reports as errors.
pub fn try_parse_line<P: Fn(&str) -> u64>(text: &Vec<char>, ctx: &mut Context, num: &P) -> (r: Result<
    UserInput,
    ParseError,
>)
    requires
        accepts_all(*num),
    ensures
        final(ctx).view().values == old(ctx).view().values,
        extends(old(ctx).view().names, final(ctx).view().names),
        forall|sem: spec_fn(Seq<char>) -> u64| #[trigger]
            reads(*num, sem) ==> match line_result(text@, old(ctx).view().names, sem) {
                Ok((l, n2)) => r matches Ok(u) && input_matches(u, l) && final(ctx).view().names == n2,
                Err(err) => r == Err::<UserInput, ParseError>(err),
            },
{
    let mut scratch = Context::new();
    if let Err(e) = read_line(text, &mut scratch, num, true) {
        return Err(e);
    }
    read_line(text, ctx, num, false)
}

} // verus!
