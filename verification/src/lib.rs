pub mod ast;
pub mod laws;
pub mod visitor;
