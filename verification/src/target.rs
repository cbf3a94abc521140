//! The boundary contract every output format implements: the pipeline ends by
//! handing the rewritten tree to a target's `export`, which renders it to a
//! string for the caller to write out.

use vstd::prelude::*;
use crate::ast::{Element, TransformationError};
use crate::settings::Settings;

verus! {

/// Marks an exportable target type.
pub trait Target {
    /// The name of this target.
    fn get_name(&self) -> &'static str;

    /// Whether this target wants the tree with section inclusion applied.
    fn do_include_sections(&self) -> bool;

    /// Whether build dependencies are generated for this target.
    fn do_generate_dependencies(&self) -> bool;

    /// The file extension of the rendered output.
    fn get_target_extension(&self) -> &'static str;

    /// The target extension an externally processed dependency of the given
    /// extension maps to.
    fn extension_for(&self, ext: &str) -> &'static str;

    /// Renders the rewritten tree; the caller writes the result out.
    fn export(&self, root: &Element, settings: &Settings, args: &Vec<String>) -> Result<
        String,
        TransformationError,
    >;
}

} // verus!
