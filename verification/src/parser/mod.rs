//! Parsing of module files: a line-oriented reader of declarations, and an
//! expression parser for the statements inside theory blocks.

pub mod expr;
pub mod module;

pub use expr::parse_expr;
pub use module::parse_module;
