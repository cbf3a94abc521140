//! A tree-rewriting pipeline for parsed wiki documents.
//!
//! The library owns a document tree model (`ast::Element`) together with the
//! configuration data that drives the rewrite passes (`settings::Settings`).
//! Each pass consumes the tree and returns either a rewritten tree or a hard
//! `TransformationError`; recoverable conditions surface as inline `Error`
//! nodes inside the tree instead.

pub mod ast;
pub mod exclusions;
pub mod headings;
pub mod html;
pub mod links;
pub mod sections;
pub mod settings;
pub mod target;
pub mod templates;
pub mod textops;
