use vstd::prelude::*;

use crate::constant::{Constant, E_BITS};
use crate::context::register;
use crate::expr::{int_const, pow, product, sum, Expr};

verus! {

/// Why an expression could not be read.
#[derive(Debug, Clone, Copy, PartialEq, Eq, Structural)]
pub enum ParseError {
    /// The text does not follow the grammar; the position of the first
    /// character that does not fit.
    Syntax(usize),
    /// A call of a function other than `exp`.
    UnknownFunction,
    /// `exp` called with other than one argument.
    WrongNumberArguments,
    /// At the operator at this position, a sum would be added to, added, or
    /// have something subtracted from it; sums are built from two operands
    /// that are not sums themselves.
    NestedSum(usize),
}

/// The names registered so far, by variable number.
pub type Names = Seq<Seq<char>>;

/// A successful read: the expression, the position after it, and the names.
pub type Parsed = Result<(Expr, int, Names), ParseError>;

pub open spec fn is_space(c: char) -> bool {
    c == ' ' || c == '\t'
}

pub open spec fn is_letter(c: char) -> bool {
    ('a' <= c && c <= 'z') || ('A' <= c && c <= 'Z')
}

pub open spec fn is_digit(c: char) -> bool {
    '0' <= c && c <= '9'
}

pub open spec fn is_name_char(c: char) -> bool {
    is_letter(c) || is_digit(c) || c == '_'
}

/// The first position at or after `pos` that is not a space.
pub open spec fn skip_space(cs: Seq<char>, pos: int) -> int
    decreases cs.len() - pos,
{
    if 0 <= pos < cs.len() && is_space(cs[pos]) {
        skip_space(cs, pos + 1)
    } else {
        pos
    }
}

/// The end of the run of name characters starting at `pos`.
pub open spec fn name_end(cs: Seq<char>, pos: int) -> int
    decreases cs.len() - pos,
{
    if 0 <= pos < cs.len() && is_name_char(cs[pos]) {
        name_end(cs, pos + 1)
    } else {
        pos
    }
}

/// The end of the run of digits starting at `pos`.
pub open spec fn digits_end(cs: Seq<char>, pos: int) -> int
    decreases cs.len() - pos,
{
    if 0 <= pos < cs.len() && is_digit(cs[pos]) {
        digits_end(cs, pos + 1)
    } else {
        pos
    }
}

pub open spec fn at(cs: Seq<char>, pos: int, c: char) -> bool {
    0 <= pos < cs.len() && cs[pos] == c
}

pub open spec fn digit_at(cs: Seq<char>, pos: int) -> bool {
    0 <= pos < cs.len() && is_digit(cs[pos])
}

/// The end of the number starting at `pos`: an optional minus sign, digits, an
/// optional fraction (a point and digits), and an optional exponent (`e` or
/// `E`, an optional minus sign, digits); `None` when no digit follows the sign.
pub open spec fn number_end(cs: Seq<char>, pos: int) -> Option<int> {
    let p = if at(cs, pos, '-') { pos + 1 } else { pos };
    if !digit_at(cs, p) {
        None
    } else {
        let q = digits_end(cs, p);
        let r = if at(cs, q, '.') { digits_end(cs, q + 1) } else { q };
        if at(cs, r, 'e') || at(cs, r, 'E') {
            let s = if at(cs, r + 1, '-') { r + 2 } else { r + 1 };
            if digit_at(cs, s) {
                Some(digits_end(cs, s))
            } else {
                Some(r)
            }
        } else {
            Some(r)
        }
    }
}

/// Binding strength and right associativity of an operator character: `+` and
/// `-` bind weakest, then `*` and `/`, then `^`, which groups to the right.
pub open spec fn operator(c: char) -> Option<(int, bool)> {
    if c == '+' || c == '-' {
        Some((1, false))
    } else if c == '*' || c == '/' {
        Some((2, false))
    } else if c == '^' {
        Some((3, true))
    } else {
        None
    }
}

/// The expression for `lhs op rhs`, as the library's operators build it;
/// `None` where the operator does not take these operands: `+` with a sum on
/// either side, `-` with a sum on its left.
pub open spec fn combine(op: char, lhs: Expr, rhs: Expr) -> Option<Expr> {
    if op == '+' {
        if lhs is Add || rhs is Add {
            None
        } else {
            Some(sum(lhs, rhs, false))
        }
    } else if op == '-' {
        if lhs is Add {
            None
        } else {
            Some(sum(lhs, rhs, true))
        }
    } else if op == '*' {
        Some(product(lhs, rhs, false))
    } else if op == '/' {
        Some(product(lhs, rhs, true))
    } else {
        Some(pow(lhs, rhs))
    }
}

pub open spec fn exp_name() -> Seq<char> {
    seq!['e', 'x', 'p']
}

/// An expression starting at `pos` whose operators all bind at least as
/// strongly as `min`: an operand, then operators and operands, grouped by
/// binding strength.
///
/// Read `lenient`ly, a call of any function with any number of arguments, and
/// any operands of `+` and `-`, are accepted (standing for the integer `0`):
/// only whether the text follows the grammar is then of interest.
pub open spec fn expr(cs: Seq<char>, pos: int, min: int, names: Names, num: spec_fn(Seq<char>) -> u64, lenient: bool) -> Parsed
    decreases cs.len() - pos, 3int,
{
    if pos < 0 || pos > cs.len() {
        Err(ParseError::Syntax(0))
    } else {
        match operand(cs, pos, names, num, lenient) {
            Ok((lhs, q, n2)) => if q <= pos || q > cs.len() {
                Err(ParseError::Syntax(pos as usize))
            } else {
                climb(cs, lhs, q, min, n2, num, lenient)
            },
            Err(e) => Err(e),
        }
    }
}

/// After `lhs`, ending at `pos`: further operators binding at least as strongly
/// as `min`, each with its right operand, combined from the left (from the
/// right for `^`).
pub open spec fn climb(
    cs: Seq<char>,
    lhs: Expr,
    pos: int,
    min: int,
    names: Names,
    num: spec_fn(Seq<char>) -> u64,
    lenient: bool,
) -> Parsed
    decreases cs.len() - pos, 2int,
{
    if pos < 0 || pos > cs.len() {
        Err(ParseError::Syntax(0))
    } else {
        let p = skip_space(cs, pos);
        if !(pos <= p < cs.len()) {
            Ok((lhs, pos, names))
        } else {
            match operator(cs[p]) {
                Some((prec, right)) => if prec < min {
                    Ok((lhs, pos, names))
                } else {
                    let next = if right { prec } else { prec + 1 };
                    match expr(cs, p + 1, next, names, num, lenient) {
                        Ok((rhs, q, n2)) => if q <= p || q > cs.len() {
                            Err(ParseError::Syntax(p as usize))
                        } else {
                            match combine(cs[p], lhs, rhs) {
                                Some(c) => climb(cs, c, q, min, n2, num, lenient),
                                None => if lenient {
                                    climb(cs, int_const(0), q, min, n2, num, lenient)
                                } else {
                                    Err(ParseError::NestedSum(p as usize))
                                },
                            }
                        },
                        Err(e) => Err(e),
                    }
                },
                None => Ok((lhs, pos, names)),
            }
        }
    }
}

/// One operand at `pos`: a parenthesized expression, a function call, a
/// variable, or a number.
pub open spec fn operand(cs: Seq<char>, pos: int, names: Names, num: spec_fn(Seq<char>) -> u64, lenient: bool) -> Parsed
    decreases cs.len() - pos, 1int,
{
    let p = skip_space(cs, pos);
    if !(0 <= pos <= p < cs.len()) {
        Err(ParseError::Syntax(p as usize))
    } else if cs[p] == '(' {
        match expr(cs, p + 1, 1, names, num, lenient) {
            Ok((e, q, n2)) => {
                let r = skip_space(cs, q);
                if q > p && at(cs, r, ')') && r >= q {
                    Ok((e, r + 1, n2))
                } else {
                    Err(ParseError::Syntax(r as usize))
                }
            },
            Err(e) => Err(e),
        }
    } else if is_letter(cs[p]) {
        let q = name_end(cs, p);
        let name = cs.subrange(p, q);
        let r = skip_space(cs, q);
        if q > p && r >= q && at(cs, r, '(') {
            match arguments(cs, r + 1, names, num, lenient) {
                Ok((args, t, n2)) => if !(t > r) {
                    Err(ParseError::Syntax(r as usize))
                } else if name != exp_name() {
                    if lenient { Ok((int_const(0), t, n2)) } else { Err(ParseError::UnknownFunction) }
                } else if args.len() != 1 {
                    if lenient { Ok((int_const(0), t, n2)) } else { Err(ParseError::WrongNumberArguments) }
                } else {
                    Ok((pow(Expr::Const(Constant::Fp(E_BITS)), args[0]), t, n2))
                },
                Err(e) => Err(e),
            }
        } else {
            let (n2, id) = register(names, name);
            Ok((Expr::Var(id as usize), q, n2))
        }
    } else if cs[p] == '-' || is_digit(cs[p]) {
        match number_end(cs, p) {
            Some(q) => Ok((Expr::Const(Constant::Fp(num(cs.subrange(p, q)))), q, names)),
            None => Err(ParseError::Syntax(p as usize)),
        }
    } else {
        Err(ParseError::Syntax(p as usize))
    }
}

/// The arguments of a call, after its opening parenthesis at `pos - 1`:
/// expressions separated by commas, then the closing parenthesis.
pub open spec fn arguments(cs: Seq<char>, pos: int, names: Names, num: spec_fn(Seq<char>) -> u64, lenient: bool) -> Result<
    (Seq<Expr>, int, Names),
    ParseError,
>
    decreases cs.len() - pos, 5int,
{
    let p = skip_space(cs, pos);
    if !(0 <= pos <= p) {
        Err(ParseError::Syntax(0))
    } else if at(cs, p, ')') {
        Ok((Seq::empty(), p + 1, names))
    } else {
        argument_list(cs, pos, Seq::empty(), names, num, lenient)
    }
}

/// Arguments from `pos` on, after the arguments `acc` already read.
pub open spec fn argument_list(
    cs: Seq<char>,
    pos: int,
    acc: Seq<Expr>,
    names: Names,
    num: spec_fn(Seq<char>) -> u64,
    lenient: bool,
) -> Result<(Seq<Expr>, int, Names), ParseError>
    decreases cs.len() - pos, 4int,
{
    match expr(cs, pos, 1, names, num, lenient) {
        Ok((e, q, n2)) => {
            let r = skip_space(cs, q);
            if !(pos < q <= r) {
                Err(ParseError::Syntax(pos as usize))
            } else if at(cs, r, ',') {
                argument_list(cs, r + 1, acc.push(e), n2, num, lenient)
            } else if at(cs, r, ')') {
                Ok((acc.push(e), r + 1, n2))
            } else {
                Err(ParseError::Syntax(r as usize))
            }
        },
        Err(e) => Err(e),
    }
}

/// A whole text: one expression, with nothing but spaces around it.
pub open spec fn calculation(cs: Seq<char>, names: Names, num: spec_fn(Seq<char>) -> u64, lenient: bool) -> Result<
    (Expr, Names),
    ParseError,
> {
    match expr(cs, 0, 1, names, num, lenient) {
        Ok((e, q, n2)) => {
            let r = skip_space(cs, q);
            if r == cs.len() {
                Ok((e, n2))
            } else {
                Err(ParseError::Syntax(r as usize))
            }
        },
        Err(e) => Err(e),
    }
}

/// What a line of input asks for: a value for a variable, or an expression.
pub enum Line {
    Assignment(usize, Expr),
    Expression(Expr),
}

/// A line: `name = expression`, or an expression alone. In an assignment the
/// name is registered before the expression is read.
pub open spec fn line(cs: Seq<char>, names: Names, num: spec_fn(Seq<char>) -> u64, lenient: bool) -> Result<(Line, Names), ParseError> {
    let p = skip_space(cs, 0);
    let q = name_end(cs, p);
    let r = skip_space(cs, q);
    if 0 <= p < cs.len() && is_letter(cs[p]) && p < q <= r && at(cs, r, '=') {
        let (n1, id) = register(names, cs.subrange(p, q));
        match expr(cs, r + 1, 1, n1, num, lenient) {
            Ok((e, t, n2)) => {
                let u = skip_space(cs, t);
                if u == cs.len() {
                    Ok((Line::Assignment(id as usize, e), n2))
                } else {
                    Err(ParseError::Syntax(u as usize))
                }
            },
            Err(e) => Err(e),
        }
    } else {
        match calculation(cs, names, num, lenient) {
            Ok((e, n2)) => Ok((Line::Expression(e), n2)),
            Err(e) => Err(e),
        }
    }
}

/// The errors met while building the expression of a text that follows the
/// grammar: a call of a function other than `exp`, `exp` with other than one
/// argument, a sum made an operand of `+` or the left operand of `-`.
pub open spec fn is_build_failure(e: ParseError) -> bool {
    e is UnknownFunction || e is WrongNumberArguments || e is NestedSum
}

/// What reading a whole text gives: the first place where it does not follow
/// the grammar (read with any function name, any number of arguments and any
/// operands accepted), else the expression it builds, or the first failure to
/// build it.
pub open spec fn read_result(cs: Seq<char>, names: Names, num: spec_fn(Seq<char>) -> u64) -> Result<
    (Expr, Names),
    ParseError,
> {
    match calculation(cs, Seq::empty(), num, true) {
        Err(e) => Err(e),
        Ok(_) => calculation(cs, names, num, false),
    }
}

/// The expression of `cs` can be built, if `cs` follows the grammar.
pub open spec fn builds(cs: Seq<char>, names: Names, num: spec_fn(Seq<char>) -> u64) -> bool {
    !(read_result(cs, names, num) matches Err(e) && is_build_failure(e))
}

/// What reading a line gives, as `read_result` for a whole text.
pub open spec fn line_result(cs: Seq<char>, names: Names, num: spec_fn(Seq<char>) -> u64) -> Result<
    (Line, Names),
    ParseError,
> {
    match line(cs, Seq::empty(), num, true) {
        Err(e) => Err(e),
        Ok(_) => line(cs, names, num, false),
    }
}

/// The expression of the line `cs` can be built, if the line follows the grammar.
pub open spec fn builds_line(cs: Seq<char>, names: Names, num: spec_fn(Seq<char>) -> u64) -> bool {
    !(line_result(cs, names, num) matches Err(e) && is_build_failure(e))
}

} // verus!
