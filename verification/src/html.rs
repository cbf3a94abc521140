//! The HTML output target; rendering proper is still a placeholder.

use vstd::prelude::*;
use crate::ast::{Element, TransformationError};
use crate::settings::Settings;
use crate::target::Target;

verus! {

/// Renders the tree as HTML.
#[derive(Clone, Copy, PartialEq, Eq, Structural, Default, Debug)]
pub struct HTMLTarget {}

impl Target for HTMLTarget {
    fn get_name(&self) -> &'static str {
        "html"
    }

    fn do_include_sections(&self) -> bool {
        true
    }

    fn do_generate_dependencies(&self) -> bool {
        false
    }

    fn get_target_extension(&self) -> &'static str {
        "html"
    }

    fn extension_for(&self, _ext: &str) -> &'static str {
        "%"
    }

    fn export(&self, _root: &Element, _settings: &Settings, _args: &Vec<String>) -> Result<
        String,
        TransformationError,
    > {
        Ok("Hello World!".to_owned())
    }
}

} // verus!
