//! Front end of a mock-server specification engine: a reader over the input
//! text, the parsers built on it, the syntax tree they produce, and the
//! asserts of that tree in the form in which they are held against a
//! request. Every node of the tree records where in the input it was found.

pub mod asserts;
pub mod ast;
pub mod parser;
