//! Extracts a language-agnostic UML class model from source code.
//!
//! Each supported language has an extractor that parses a byte buffer into a
//! syntax tree, runs a fixed table of structural patterns over it, and folds
//! the resulting capture groups into typed class, field, method and
//! association records.  The extraction pipeline is specified end to end:
//! the syntax-tree provider is the one trusted boundary, and everything from
//! capture dispatch to entity assembly is verified against reference folds.
pub mod capture;
pub mod cpp_parser;
pub mod entity;
pub mod laws;
pub mod parser;
pub mod plantuml;
pub mod provider;
pub mod reconcile;
pub mod rust_parser;
pub mod uml;
