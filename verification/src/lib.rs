//! A verified front end for the Sans language: lexer, parser, type-checker
//! helpers, lambda capture analysis, and lowering to the IR.
pub mod text;
pub mod token;
pub mod lexer;
pub mod ast;
pub mod parser_spec;
pub mod parser;
pub mod types;
pub mod ir;
pub mod typeck_spec;
pub mod typeck;
pub mod builtins;
pub mod plans;
pub mod checker;
pub mod calls;
pub mod program_spec;
pub mod program;
pub mod laws;
pub mod filled;
pub mod captures;
pub mod lower;
pub mod op_laws;
