pub mod fold_spec;
pub mod constant_folder;
pub mod pretty_printer;
pub mod evaluator;
pub mod derivator;
pub mod visitor;
