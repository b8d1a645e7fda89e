pub mod binary64;
pub mod constant;
pub mod context;
pub mod expr;
pub mod function;
pub mod node;
pub mod operators;
pub mod ops;
pub mod prelude;
pub mod text;
pub mod visitors;
pub mod laws;
pub mod semantics;
pub mod parser;
pub mod scalar_ops;
pub mod node_ops;
pub mod mixed_ops;
pub mod precedence;
