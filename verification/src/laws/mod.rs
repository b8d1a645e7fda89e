pub mod fold_value;
pub mod well_formed;
pub mod context;
pub mod derivative;
pub mod evaluate;
pub mod fold_rules;
pub mod text;
pub mod parse;
pub mod printing;
