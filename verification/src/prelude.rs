pub use crate::binary64::FloatOp;
pub use crate::constant::Constant;
pub use crate::context::Context;
pub use crate::function::{Exponential, Function, FunctionError, FunctionResult};
pub use crate::node::Node;
pub use crate::ops::{Addition, Inverse, Log, Multiplication, Negation, Power, Variable};
pub use crate::visitors::constant_folder::ConstantFolder;
pub use crate::visitors::derivator::Derivator;
pub use crate::visitors::evaluator::Evaluator;
pub use crate::visitors::pretty_printer::{PrettyPrinter, PrettyPrinterContext};
pub use crate::visitors::visitor::Visitor;
