use vstd::prelude::*;

use crate::constant::Constant;
use crate::ops::{Addition, Log, Multiplication, Negation, Power, Variable};

verus! {

/// How strongly the operator of a kind of node binds, for printing; `None`
/// for kinds without an infix operator.
pub trait Precedence {
    fn precedence(&self) -> (p: Option<u32>)
        default_ensures
            p is None,
    {
        None
    }
}

impl Precedence for Addition {
    fn precedence(&self) -> (p: Option<u32>)
        ensures
            p == Some(50u32),
    {
        Some(50)
    }
}

impl Precedence for Multiplication {
    fn precedence(&self) -> (p: Option<u32>)
        ensures
            p == Some(100u32),
    {
        Some(100)
    }
}

impl Precedence for Power {
    fn precedence(&self) -> (p: Option<u32>)
        ensures
            p == Some(150u32),
    {
        Some(150)
    }
}

impl Precedence for Variable {
}

impl Precedence for Constant {
}

impl Precedence for Negation {
}

impl Precedence for Log {
}

} // verus!
