use std::collections::HashMap;
use vstd::prelude::*;

use crate::binary64::shows;
use crate::constant::{const_text, Constant, E_BITS};
use crate::expr::Expr;
use crate::node::{lemma_view_seq, view_node, view_seq, Node};
use crate::ops::Variable;
use crate::text::push_char;
use vstd::string::StringExecFns;

verus! {

broadcast use vstd::std_specs::hash::group_hash_axioms;

pub open spec fn undefined_text() -> Seq<char> {
    seq!['{', 'u', 'n', 'd', 'e', 'f', 'i', 'n', 'e', 'd', '}']
}

/// The text of `e`, with variables named by `names` and float constants
/// written by `text`.
///
/// Sums and products are written as their members joined by ` + ` and ` * `,
/// a member in parentheses unless its operator binds more strongly than the
/// sum or product; `e` to a power `y` is written `exp(y)`, any other power
/// `x^y`; negations `-x`, logarithms `ln(x)`; an unnamed variable `{undefined}`.
pub open spec fn print(e: Expr, names: Map<usize, String>, text: spec_fn(u64) -> Seq<char>) -> Seq<
    char,
>
    decreases e, 0nat,
{
    match e {
        Expr::Ln(x) => seq!['l', 'n', '('] + print(*x, names, text) + seq![')'],
        Expr::Pow(x, y) => if *x == Expr::Const(Constant::Fp(E_BITS)) {
            seq!['e', 'x', 'p', '('] + print(*y, names, text) + seq![')']
        } else {
            print(*x, names, text) + seq!['^'] + print(*y, names, text)
        },
        Expr::Neg(x) => seq!['-'] + print(*x, names, text),
        Expr::Const(c) => const_text(c, text),
        Expr::Add(s) => print_members(s, s.len(), '+', 50, names, text),
        Expr::Mul(s) => print_members(s, s.len(), '*', 100, names, text),
        Expr::Var(v) => if names.contains_key(v) {
            names[v]@
        } else {
            undefined_text()
        },
    }
}

/// The text of the first `k` members of a sum or product with operator `op`
/// and binding strength `precedence`, each followed by ` op ` unless it is the
/// last member.
pub open spec fn print_members(
    s: Seq<Expr>,
    k: nat,
    op: char,
    precedence: u32,
    names: Map<usize, String>,
    text: spec_fn(u64) -> Seq<char>,
) -> Seq<char>
    decreases s, k,
{
    if k == 0 || k > s.len() {
        Seq::empty()
    } else {
        let m = s[k - 1];
        let p = print(m, names, text);
        let strength: u32 = match m.precedence() {
            Some(q) => q,
            None => u32::MAX,
        };
        print_members(s, (k - 1) as nat, op, precedence, names, text) + (if strength > precedence {
            p
        } else {
            seq!['('] + p + seq![')']
        }) + (if k < s.len() {
            seq![' ', op, ' ']
        } else {
            Seq::empty()
        })
    }
}

/// Names given to variables for printing, by variable number.
#[derive(Debug)]
pub struct PrettyPrinterContext(pub HashMap<usize, String>);

impl View for PrettyPrinterContext {
    type V = Map<usize, String>;

    open spec fn view(&self) -> Map<usize, String> {
        self.0@
    }
}

impl PrettyPrinterContext {
    /// A context that names no variable.
    pub fn new() -> (c: PrettyPrinterContext)
        ensures
            c@ == Map::<usize, String>::empty(),
    {
        PrettyPrinterContext(HashMap::new())
    }

    /// Names `variable` `name`, replacing any earlier name.
    pub fn name_var(&mut self, variable: Variable, name: String)
        ensures
            final(self)@ == old(self)@.insert(variable.0, name),
    {
        self.0.insert(variable.0, name);
    }

    /// The names, by variable number.
    pub fn as_map(&self) -> (m: &HashMap<usize, String>)
        ensures
            m@ == self@,
    {
        &self.0
    }

    /// The names, by variable number, for changing.
    pub fn as_mut_map(&mut self) -> (m: &mut HashMap<usize, String>)
        ensures
            *m == old(self).0,
            final(self).0 == *final(m),
    {
        &mut self.0
    }
}

/// Writes expressions as text.
pub struct PrettyPrinter<'a> {
    pub context: &'a PrettyPrinterContext,
}

impl<'a> PrettyPrinter<'a> {
    pub fn new(context: &'a PrettyPrinterContext) -> (p: PrettyPrinter<'a>)
        ensures
            p.context == context,
    {
        PrettyPrinter { context }
    }

    /// The text of `n` with this printer's variable names; `show` writes floats.
    pub fn format<H: Fn(u64) -> String>(&self, n: &Node, show: &H) -> (r: String)
        requires
            forall|b: u64| call_requires(*show, (b,)),
        ensures
            forall|text: spec_fn(u64) -> Seq<char>| #[trigger]
                shows(*show, text) ==> r@ == print(n@, self.context@, text),
    {
        print_node(n, &self.context.0, show)
    }

    /// The text of `n`, every variable unnamed; `show` writes floats.
    pub fn print<H: Fn(u64) -> String>(n: &Node, show: &H) -> (r: String)
        requires
            forall|b: u64| call_requires(*show, (b,)),
        ensures
            forall|text: spec_fn(u64) -> Seq<char>| #[trigger]
                shows(*show, text) ==> r@ == print(n@, Map::empty(), text),
    {
        let c = PrettyPrinterContext::new();
        let pp = PrettyPrinter::new(&c);
        pp.format(n, show)
    }

    /// The text of `n` with the variable names of `context`; `show` writes floats.
    pub fn print_with_context<H: Fn(u64) -> String>(
        n: &Node,
        context: &PrettyPrinterContext,
        show: &H,
    ) -> (r: String)
        requires
            forall|b: u64| call_requires(*show, (b,)),
        ensures
            forall|text: spec_fn(u64) -> Seq<char>| #[trigger]
                shows(*show, text) ==> r@ == print(n@, context@, text),
    {
        let pp = PrettyPrinter::new(context);
        pp.format(n, show)
    }
}

fn print_node<H: Fn(u64) -> String>(n: &Node, names: &HashMap<usize, String>, show: &H) -> (r: String)
    requires
        forall|b: u64| call_requires(*show, (b,)),
    ensures
        forall|text: spec_fn(u64) -> Seq<char>| #[trigger]
            shows(*show, text) ==> r@ == print(n@, names@, text),
    decreases n, 1nat,
{
    let mut out = String::new();
    match n {
        Node::Log(l) => {
            let v = print_node(&l.val, names, show);
            out.append("ln(");
            out.append(v.as_str());
            push_char(&mut out, ')');
            proof {
                reveal_strlit("ln(");
            }
            proof {
                assert forall|text: spec_fn(u64) -> Seq<char>| #[trigger]
                    shows(*show, text) implies out@ == print(n@, names@, text) by {
                    assert(out@ =~= print(n@, names@, text));
                }
            }
        },
        Node::Power(p) => {
            let y = print_node(&p.exponent, names, show);
            let is_exp = match &*p.val {
                Node::Constant(Constant::Fp(b)) => *b == E_BITS,
                _ => false,
            };
            assert(is_exp == (view_node(*p.val) == Expr::Const(Constant::Fp(E_BITS))));
            if is_exp {
                out.append("exp(");
                out.append(y.as_str());
                push_char(&mut out, ')');
                proof {
                    reveal_strlit("exp(");
                }
            } else {
                let x = print_node(&p.val, names, show);
                out.append(x.as_str());
                push_char(&mut out, '^');
                out.append(y.as_str());
            }
        },
        Node::Negation(g) => {
            let v = print_node(&g.val, names, show);
            push_char(&mut out, '-');
            out.append(v.as_str());
            proof {
                assert forall|text: spec_fn(u64) -> Seq<char>| #[trigger]
                    shows(*show, text) implies out@ == print(n@, names@, text) by {
                    assert(out@ =~= print(n@, names@, text));
                }
            }
        },
        Node::Constant(c) => {
            let t = c.to_string(show);
            out.append(t.as_str());
            proof {
                assert forall|text: spec_fn(u64) -> Seq<char>| #[trigger]
                    shows(*show, text) implies out@ == print(n@, names@, text) by {
                    assert(out@ =~= print(n@, names@, text));
                }
            }
        },
        Node::Addition(a) => {
            out = print_variadic(&a.members, '+', 50, names, show);
            proof {
                lemma_view_seq(a.members@);
                assert forall|text: spec_fn(u64) -> Seq<char>| #[trigger]
                    shows(*show, text) implies out@ == print(n@, names@, text) by {
                    assert(out@ =~= print(n@, names@, text));
                }
            }
        },
        Node::Multiplication(m) => {
            out = print_variadic(&m.members, '*', 100, names, show);
            proof {
                lemma_view_seq(m.members@);
                assert forall|text: spec_fn(u64) -> Seq<char>| #[trigger]
                    shows(*show, text) implies out@ == print(n@, names@, text) by {
                    assert(out@ =~= print(n@, names@, text));
                }
            }
        },
        Node::Variable(v) => {
            match names.get(&v.0) {
                Some(name) => {
                    out.append(name.as_str());
                    assert(names@.contains_key(v.0) && names@[v.0] == *name);
                    assert(out@ == names@[v.0]@);
                },
                None => {
                    out.append("{undefined}");
                    proof {
                        reveal_strlit("{undefined}");
                    }
                    assert(!names@.contains_key(v.0));
                    assert(out@ =~= undefined_text());
                },
            }
        },
    }
    proof {
        assert forall|text: spec_fn(u64) -> Seq<char>| #[trigger]
            shows(*show, text) implies out@ == print(n@, names@, text) by {
            assert(out@ =~= print(n@, names@, text));
        }
    }
    out
}

fn print_variadic<H: Fn(u64) -> String>(
    members: &Vec<Node>,
    op: char,
    precedence: u32,
    names: &HashMap<usize, String>,
    show: &H,
) -> (r: String)
    requires
        forall|b: u64| call_requires(*show, (b,)),
    ensures
        forall|text: spec_fn(u64) -> Seq<char>| #[trigger]
            shows(*show, text) ==> r@ == print_members(
                view_seq(members@),
                members@.len(),
                op,
                precedence,
                names@,
                text,
            ),
    decreases members, 0nat,
{
    let ghost s = view_seq(members@);
    proof {
        lemma_view_seq(members@);
    }
    let mut out = String::new();
    let mut i: usize = 0;
    while i < members.len()
        invariant
            forall|b: u64| call_requires(*show, (b,)),
            s == view_seq(members@),
            s.len() == members@.len(),
            forall|j: int| 0 <= j < s.len() ==> #[trigger] s[j] == members@[j]@,
            i <= members.len(),
            forall|text: spec_fn(u64) -> Seq<char>| #[trigger]
                shows(*show, text) ==> out@ == print_members(
                    s,
                    i as nat,
                    op,
                    precedence,
                    names@,
                    text,
                ),
        decreases members.len() - i,
    {
        assert(decreases_to!(members => members@[i as int])) by {
            broadcast use vstd::std_specs::vec::axiom_vec_index_decreases;
        }
        let ghost prev = out@;
        let m = &members[i];
        let m_str = print_node(m, names, show);
        let strength: u32 = match m.precedence() {
            Some(q) => q,
            None => u32::MAX,
        };
        if strength > precedence {
            out.append(m_str.as_str());
        } else {
            push_char(&mut out, '(');
            out.append(m_str.as_str());
            push_char(&mut out, ')');
        }
        if i + 1 < members.len() {
            push_char(&mut out, ' ');
            push_char(&mut out, op);
            push_char(&mut out, ' ');
        }
        proof {
            assert forall|text: spec_fn(u64) -> Seq<char>| #[trigger]
                shows(*show, text) implies out@ == print_members(
                    s,
                    (i + 1) as nat,
                    op,
                    precedence,
                    names@,
                    text,
                ) by {
                assert(out@ =~= print_members(s, (i + 1) as nat, op, precedence, names@, text));
            }
        }
        i = i + 1;
    }
    out
}

} // verus!
