//! Postfix and qualifier resolution for expressions of a Java-like language.
//!
//! Given a token stream positioned at a primary expression (or at a type
//! name, when no expression can start there), this crate resolves the chain
//! of trailing constructs — field access, invocation, indexing, qualified
//! `this`/`super`/`class`, and inner-class creation — and disambiguates the
//! forms that stay ambiguous until several tokens of look-ahead: a dotted
//! identifier chain is kept as an expression and reinterpreted as a type only
//! once a reserved qualifier or an array class literal proves that reading.
//!
//! The whole behaviour is specified by a recursive grammar over token
//! sequences (`grammar`), and every parsing function is proved to return
//! exactly what the grammar assigns to its input.

pub mod ast;
pub mod convert;
pub mod grammar;
pub mod laws;
pub mod parser;
pub mod token;
