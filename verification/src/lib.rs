//! Discovers annotated declarations in a tree of source modules and describes
//! their type signatures for a binding generator.
//!
//! The crate has two halves. The *type bridge* reads source text into a
//! syntax model (`parse`, `raw`), turns the types and declarations of that
//! model into the type model (`convert`, `extract`, `types`), and names each
//! type in the source language, in the foreign-function interface and in the
//! host language (`names`, `dart`). The *module resolver* (`module`, `tree`)
//! scans parsed files, keeps the exported declarations that carry a marker
//! attribute, and assembles them into a tree, asking its caller for the
//! source of one module at a time.
pub mod config;
pub mod conversion;
pub mod convert;
pub mod dart;
pub mod display;
pub mod error;
pub mod extract;
pub mod module;
pub mod names;
pub mod parse;
pub mod raw;
pub mod text;
pub mod tree;
pub mod types;
