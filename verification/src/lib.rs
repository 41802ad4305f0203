//! An ASN.1 schema model and the protocol by which generated types are read
//! and written.
//!
//! - `parser`: the tokens of a module's text, and the number literals that a
//!   word can spell.
//! - `schema`: tags in their canonical order, a cursor over tokens, types and
//!   open types as they are parsed (sizes, ranges and constants may still be
//!   names) and as they are resolved against the declarations of a schema.
//! - `syn`: what a wire format implements (`Reader`, `Writer`) and what a
//!   generated type implements, one construct at a time; open types at run
//!   time.
//! - `model` and `gen`: a small reader for modules of sequences, and Rust
//!   source for them.
//! - `render`: what is believed of the `codegen` crate, which lays out the
//!   source text.
//!
//! Executable functions state what they return over specification
//! functions: a parser over the tokens and the number of tokens consumed, a
//! resolution over what the resolver knows of each name.

pub mod gen;
pub mod model;
pub mod parser;
pub mod render;
pub mod schema;
pub mod syn;
