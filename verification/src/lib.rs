//! A recursive-descent parser for a WGSL-style shading language.
//!
//! The parser turns source text (a UTF-8 byte buffer) into an abstract
//! syntax tree held in append-only arenas, producing byte-offset spans
//! precise enough for compiler-quality diagnostics.  The first error
//! aborts the parse; there is no recovery.

pub mod arena;
pub mod ast;
pub mod attr;
pub mod conv;
pub mod diag;
pub mod error;
pub mod expr;
pub mod global;
pub mod laws;
pub mod lexer;
pub mod parser;
pub mod rules;
pub mod scope;
pub mod stmt;
pub mod stream;
pub mod time;
pub mod token;
pub mod typedecl;
