//! Construction of template-rendering contexts for a family of generated
//! vector types, and of the table that maps each intended output file to
//! the context that should produce it.
//!
//! The rendering itself (resolving `template_path` to a template, substituting
//! the bindings, writing the output file) is the business of an outside
//! collaborator; this crate only describes what to feed into it.

pub mod context;
pub mod output;
