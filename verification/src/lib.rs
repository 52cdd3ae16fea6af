//! A small ahead-of-launch kernel compiler: a surface tree of a restricted
//! arithmetic function body is lowered to a typed, scope-resolved IR, and the
//! IR is rendered as shader source text.

pub mod codegen;
pub mod compile;
pub mod error;
pub mod expression;
pub mod flat;
pub mod kernel;
pub mod lines;
pub mod operator;
pub mod options;
pub mod sample;
pub mod scope;
pub mod statement;
pub mod surface;
pub mod text;
pub mod typed;
pub mod types;
