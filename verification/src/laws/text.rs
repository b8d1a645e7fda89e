use vstd::prelude::*;

use crate::text::{digit, int_text, nat_text};

verus! {

/// The number a decimal digit character stands for.
pub open spec fn digit_value(c: char) -> int {
    (c as int) - ('0' as int)
}

pub open spec fn is_decimal_digit(c: char) -> bool {
    '0' <= c && c <= '9'
}

/// The number a string of decimal digits stands for, most significant first.
pub open spec fn decimal_value(s: Seq<char>) -> int
    decreases s.len(),
{
    if s.len() == 0 {
        0
    } else {
        decimal_value(s.drop_last()) * 10 + digit_value(s.last())
    }
}

proof fn lemma_digit(d: int)
    requires
        0 <= d < 10,
    ensures
        is_decimal_digit(digit(d)),
        digit_value(digit(d)) == d,
{
}

/// The text of a natural number is its decimal notation: it is made of decimal
/// digits, it reads back as the number, and it starts with `0` only for zero.
pub proof fn lemma_nat_text_decimal(n: nat)
    ensures
        nat_text(n).len() >= 1,
        forall|i: int| 0 <= i < nat_text(n).len() ==> is_decimal_digit(#[trigger] nat_text(n)[i]),
        decimal_value(nat_text(n)) == n,
        nat_text(n)[0] == '0' ==> n == 0,
    decreases n,
{
    if n < 10 {
        lemma_digit(n as int);
        assert(nat_text(n).drop_last() =~= Seq::<char>::empty());
        assert(decimal_value(Seq::<char>::empty()) == 0);
        assert(decimal_value(nat_text(n)) == decimal_value(nat_text(n).drop_last()) * 10 + digit_value(nat_text(n).last()));
    } else {
        lemma_nat_text_decimal(n / 10);
        lemma_digit((n % 10) as int);
        let t = nat_text(n / 10);
        assert(nat_text(n).drop_last() =~= t);
        assert forall|i: int| 0 <= i < nat_text(n).len() implies is_decimal_digit(#[trigger] nat_text(n)[i]) by {
            if i < t.len() {
                assert(nat_text(n)[i] == t[i]);
            }
        }
        assert(nat_text(n)[0] == t[0]);
        assert(nat_text(n).last() == digit((n % 10) as int));
        assert(decimal_value(nat_text(n)) == decimal_value(t) * 10 + digit_value(nat_text(n).last()));
        assert(n == (n / 10) * 10 + n % 10);
        assert(n / 10 > 0);
    }
}

/// The text of an integer is a minus sign before the decimal notation of its
/// magnitude when it is negative, that notation alone otherwise.
pub proof fn lemma_int_text_decimal(i: int)
    ensures
        i < 0 ==> int_text(i)[0] == '-' && decimal_value(int_text(i).subrange(1, int_text(i).len() as int)) == -i,
        i >= 0 ==> decimal_value(int_text(i)) == i && is_decimal_digit(int_text(i)[0]),
{
    if i < 0 {
        lemma_nat_text_decimal((-i) as nat);
        assert(int_text(i).subrange(1, int_text(i).len() as int) =~= nat_text((-i) as nat));
    } else {
        lemma_nat_text_decimal(i as nat);
    }
}

} // verus!
