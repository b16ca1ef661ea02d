//! Front end of a small dynamic scripting language: a character-driven
//! lexical scanner that turns raw source text into typed tokens, and a
//! recursive-descent expression parser that turns a finished token
//! sequence into an abstract syntax tree.

pub mod token;
pub mod scanner;
pub mod parser;
pub mod tree;
