//! Semantic core of a small scripting language: the runtime object model,
//! lexical scopes, a resumable evaluator for expressions and a statement-level
//! type checker, all stated over mathematical models and proved.

pub mod environment;
pub mod equality;
pub mod evaluator;
pub mod expressions;
pub mod laws;
pub mod numbers;
pub mod objects;
pub mod statements;
pub mod text;
pub mod tokens;
pub mod typechecker;
pub mod types;
