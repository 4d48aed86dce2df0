//! Markdown reference documentation for command-line interfaces.
//!
//! A [`Command`] describes a program's commands, subcommands and arguments
//! as plain data. [`Settings`] turns such a description into a Markdown
//! document. Every rendering function is verified against a mathematical
//! description of the text it produces: [`render::document`] for a whole
//! command tree, [`argument::render_argument`] for a single argument.

pub mod argument;
pub mod laws;
pub mod model;
pub mod render;
pub mod settings;
pub mod text;

pub use model::{Action, Argument, Command, PossibleValue, ValueRange};
pub use settings::{Settings, Subcommands};

use render::document;
use settings::default_settings;
use vstd::prelude::*;

verus! {

/// The Markdown document for `cmd` under the default settings.
pub fn to_markdown_string(cmd: &Command) -> (markdown: String)
    ensures
        markdown@ == document(cmd@, default_settings()),
{
    Settings::new().command_to_string(cmd)
}

} // verus!
