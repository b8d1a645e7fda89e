use vstd::prelude::*;

use crate::expr::Expr;
use crate::visitors::pretty_printer::{print, print_members};

verus! {

/// Whether a member `m` of a sum or product whose operator binds with strength
/// `prec` is written in parentheses: exactly when its own operator binds no
/// more strongly (a leaf, a negation or a logarithm never is).
pub open spec fn needs_parens(m: Expr, prec: u32) -> bool {
    match m.precedence() {
        Some(q) => q <= prec,
        None => false,
    }
}

/// The text of a member, in parentheses where it needs them.
pub open spec fn member_text(
    m: Expr,
    prec: u32,
    names: Map<usize, String>,
    text: spec_fn(u64) -> Seq<char>,
) -> Seq<char> {
    if needs_parens(m, prec) {
        seq!['('] + print(m, names, text) + seq![')']
    } else {
        print(m, names, text)
    }
}

/// Texts joined by `sep`.
pub open spec fn joined(pieces: Seq<Seq<char>>, sep: Seq<char>) -> Seq<char>
    decreases pieces.len(),
{
    if pieces.len() == 0 {
        Seq::empty()
    } else if pieces.len() == 1 {
        pieces[0]
    } else {
        joined(pieces.drop_last(), sep) + sep + pieces.last()
    }
}

proof fn lemma_members_joined(
    s: Seq<Expr>,
    k: nat,
    op: char,
    prec: u32,
    names: Map<usize, String>,
    text: spec_fn(u64) -> Seq<char>,
)
    requires
        1 <= k <= s.len(),
        prec < 0xffff_ffff,
    ensures
        print_members(s, k, op, prec, names, text) == joined(
            Seq::new(k, |i: int| member_text(s[i], prec, names, text)),
            seq![' ', op, ' '],
        ) + (if k < s.len() { seq![' ', op, ' '] } else { Seq::<char>::empty() }),
    decreases k,
{
    let sep = seq![' ', op, ' '];
    let pk = Seq::new(k, |i: int| member_text(s[i], prec, names, text));
    let m = s[k - 1];
    assert(member_text(m, prec, names, text) == (if (match m.precedence() {
        Some(q) => q,
        None => u32::MAX,
    }) > prec {
        print(m, names, text)
    } else {
        seq!['('] + print(m, names, text) + seq![')']
    }));
    assert(pk.last() == member_text(m, prec, names, text));
    if k == 1 {
        assert(print_members(s, 0, op, prec, names, text) == Seq::<char>::empty());
        assert(Seq::<char>::empty() + member_text(s[0], prec, names, text) =~= member_text(s[0], prec, names, text));
    } else {
        lemma_members_joined(s, (k - 1) as nat, op, prec, names, text);
        let pj = Seq::new((k - 1) as nat, |i: int| member_text(s[i], prec, names, text));
        assert(pk.drop_last() =~= pj);
        assert(joined(pk, sep) == joined(pj, sep) + sep + pk.last());
    }
}

/// A sum or product is written as its members in order, separated by the
/// operator with a space on either side, each member in parentheses exactly
/// when its own operator binds no more strongly than the enclosing one: a sum
/// inside a product is parenthesized, a product inside a sum is not.
pub proof fn lemma_print_sum_product(s: Seq<Expr>, names: Map<usize, String>, text: spec_fn(u64) -> Seq<char>)
    requires
        s.len() >= 1,
    ensures
        print(Expr::Add(s), names, text) == joined(
            Seq::new(s.len(), |i: int| member_text(s[i], 50, names, text)),
            seq![' ', '+', ' '],
        ),
        print(Expr::Mul(s), names, text) == joined(
            Seq::new(s.len(), |i: int| member_text(s[i], 100, names, text)),
            seq![' ', '*', ' '],
        ),
{
    lemma_members_joined(s, s.len(), '+', 50, names, text);
    lemma_members_joined(s, s.len(), '*', 100, names, text);
    assert(joined(Seq::new(s.len(), |i: int| member_text(s[i], 50, names, text)), seq![' ', '+', ' '])
        + Seq::<char>::empty() =~= joined(
        Seq::new(s.len(), |i: int| member_text(s[i], 50, names, text)),
        seq![' ', '+', ' '],
    ));
    assert(joined(Seq::new(s.len(), |i: int| member_text(s[i], 100, names, text)), seq![' ', '*', ' '])
        + Seq::<char>::empty() =~= joined(
        Seq::new(s.len(), |i: int| member_text(s[i], 100, names, text)),
        seq![' ', '*', ' '],
    ));
}

} // verus!
