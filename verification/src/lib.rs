//! A minimal Lisp front end: a tokenizer, a recursive-descent S-expression
//! parser, and a tree-walking evaluator for a small fixed set of built-in
//! operators, together with a dotted-pair printer.
//!
//! Every executable function carries a contract relating it to a spec-level
//! model of the same pipeline: `scan_spec` for the tokenizer, `parse_one` /
//! `parse_body` for the parser, `eval_spec` for the evaluator and
//! `sexpr_text` for the printer.

pub mod scanner;
pub mod parser;
pub mod interpreter;
pub mod laws;
