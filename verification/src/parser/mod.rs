pub mod grammar;
pub mod reader;
