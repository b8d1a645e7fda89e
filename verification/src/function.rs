use vstd::prelude::*;

use crate::constant::{Constant, E_BITS};
use crate::expr::{pow, Expr};
use crate::node::Node;
use crate::ops::{Log, Power};

verus! {

/// Why a function could not be built from its arguments.
#[derive(Debug, Clone, Copy, PartialEq, Eq, Structural)]
pub enum FunctionError {
    WrongNumberArguments,
}

pub type FunctionResult = Result<Node, FunctionError>;

/// A named function that can be applied to argument expressions.
pub trait Function {
    /// The expression for the function applied to `args`.
    fn from_args(args: Vec<Node>) -> FunctionResult;

    /// What the function computes and what it takes.
    fn description() -> &'static str;
}

/// The natural exponential function.
pub struct Exponential;

impl Function for Exponential {
    /// `e` to the power of the single argument; any other number of arguments
    /// is an error.
    fn from_args(args: Vec<Node>) -> (r: FunctionResult)
        ensures
            args@.len() == 1 ==> r is Ok && r.unwrap()@ == pow(
                Expr::Const(Constant::Fp(E_BITS)),
                args@[0]@,
            ),
            args@.len() != 1 ==> r == Err::<Node, FunctionError>(FunctionError::WrongNumberArguments),
    {
        let mut args = args;
        if args.len() == 1 {
            Ok(Node::Power(Power::exp(args.remove(0))))
        } else {
            Err(FunctionError::WrongNumberArguments)
        }
    }

    fn description() -> (r: &'static str)
        ensures
            r@ == "Natural exponential function - takes only one scalar as arg"@,
    {
        "Natural exponential function - takes only one scalar as arg"
    }
}

impl Function for Log {
    /// The logarithm of the single argument; any other number of arguments is an
    /// error.
    fn from_args(args: Vec<Node>) -> (r: FunctionResult)
        ensures
            args@.len() == 1 ==> r is Ok && r.unwrap()@ == Expr::Ln(Box::new(args@[0]@)),
            args@.len() != 1 ==> r == Err::<Node, FunctionError>(FunctionError::WrongNumberArguments),
    {
        let mut args = args;
        if args.len() == 1 {
            Ok(Node::Log(Log::new(args.remove(0))))
        } else {
            Err(FunctionError::WrongNumberArguments)
        }
    }

    fn description() -> (r: &'static str)
        ensures
            r@ == "Natural logarithm - takes only one scalar as arg"@,
    {
        "Natural logarithm - takes only one scalar as arg"
    }
}

} // verus!
