//! A driver that compiles and runs scripts of a small expression language.
//!
//! Source text is split into a root program and named definitions, each is
//! compiled into one shared program store, and a run of the store is bounded
//! by an instruction budget. The lexer, parser, builder and store come from
//! the `garnish_lang` crates; what is claimed of them without proof is in
//! [`toolchain`].

pub mod source;
pub mod compile;
pub mod context;
pub mod execution;
pub mod laws;
pub mod script;
pub mod token;
pub mod toolchain;
