//! A CSS code generator: walks a CSS syntax tree and produces the sequence
//! of writer calls that print it, in plain or minified form.

pub mod ops;
pub mod ast;
pub mod text;
pub mod decimal;
pub mod spec;
pub mod context;
pub mod laws;
pub mod codegen;

pub use codegen::CodeGenerator;
pub use ops::CssOp;
pub use spec::CodegenConfig;
pub use text::{minify_hex_color, minify_number};
