//! Rendering options.

use vstd::prelude::*;

verus! {

/// Determines how a command's subcommands are presented.
#[derive(Copy, Clone, Debug, Default, PartialEq, Eq, Structural)]
pub enum Subcommands {
    /// Subcommands are rendered as subheadings of their parent, and the
    /// parent's list of subcommands links to those headings.
    #[default]
    Flatten,
    /// The list of subcommands links to one Markdown file per subcommand,
    /// in a directory named after the parent command.
    Linked,
    /// The list of subcommands is plain text and subcommands are not
    /// rendered.
    Unlinked,
}

/// Configures how Markdown is produced for a command.
#[derive(Clone, Debug, PartialEq, Eq)]
pub struct Settings<'a> {
    subcommands: Subcommands,
    heading_level: usize,
    prompt: Option<&'a str>,
    monospace_headings: bool,
    highlight_subcommand_name: bool,
}

/// The mathematical content of a [`Settings`] value.
pub ghost struct SettingsView {
    pub subcommands: Subcommands,
    pub heading_level: nat,
    pub prompt: Option<Seq<char>>,
    pub monospace_headings: bool,
    pub highlight_subcommand_name: bool,
}

/// The settings a fresh [`Settings`] value holds: flattened subcommands,
/// top-level headings, a `$` prompt, monospace headings and emphasized
/// command names.
pub open spec fn default_settings() -> SettingsView {
    SettingsView {
        subcommands: Subcommands::Flatten,
        heading_level: 1,
        prompt: Some("$"@),
        monospace_headings: true,
        highlight_subcommand_name: true,
    }
}

impl<'a> View for Settings<'a> {
    type V = SettingsView;

    closed spec fn view(&self) -> SettingsView {
        SettingsView {
            subcommands: self.subcommands,
            heading_level: self.heading_level as nat,
            prompt: match self.prompt {
                Some(p) => Some(p@),
                None => None,
            },
            monospace_headings: self.monospace_headings,
            highlight_subcommand_name: self.highlight_subcommand_name,
        }
    }
}

impl Settings<'static> {
    /// The default settings.
    #[must_use]
    pub fn new() -> (settings: Self)
        ensures
            settings@ == default_settings(),
    {
        Self {
            subcommands: Subcommands::Flatten,
            heading_level: 1,
            prompt: Some("$"),
            monospace_headings: true,
            highlight_subcommand_name: true,
        }
    }
}

impl<'a> Settings<'a> {
    /// Replaces the prompt shown in front of command names in headings;
    /// `None` removes it.
    #[must_use]
    pub fn with_prompt(self, prompt: Option<&'a str>) -> (settings: Self)
        ensures
            settings@ == (SettingsView {
                prompt: match prompt {
                    Some(p) => Some(p@),
                    None => None,
                },
                ..self@
            }),
    {
        Self { prompt, ..self }
    }

    /// Chooses whether command names in headings are set in monospace.
    #[must_use]
    pub fn with_monospace_headings(self, monospace_headings: bool) -> (settings: Self)
        ensures
            settings@ == (SettingsView { monospace_headings, ..self@ }),
    {
        Self { monospace_headings, ..self }
    }

    /// Chooses how subcommands are presented.
    #[must_use]
    pub fn with_subcommand_mode(self, subcommands: Subcommands) -> (settings: Self)
        ensures
            settings@ == (SettingsView { subcommands, ..self@ }),
    {
        Self { subcommands, ..self }
    }

    /// Chooses whether the command's own name is emphasized in its heading.
    #[must_use]
    pub fn with_highlighted_subcommand_names(self, highlight_subcommand_name: bool) -> (settings:
        Self)
        ensures
            settings@ == (SettingsView { highlight_subcommand_name, ..self@ }),
    {
        Self { highlight_subcommand_name, ..self }
    }

    pub(crate) fn subcommand_mode(&self) -> (mode: Subcommands)
        ensures
            mode == self@.subcommands,
    {
        self.subcommands
    }

    pub(crate) fn heading_level(&self) -> (level: usize)
        ensures
            level == self@.heading_level,
    {
        self.heading_level
    }

    pub(crate) fn prompt(&self) -> (prompt: Option<&'a str>)
        ensures
            match prompt {
                Some(p) => self@.prompt == Some(p@),
                None => self@.prompt.is_none(),
            },
    {
        self.prompt
    }

    pub(crate) fn monospace_headings(&self) -> (on: bool)
        ensures
            on == self@.monospace_headings,
    {
        self.monospace_headings
    }

    pub(crate) fn highlight_subcommand_name(&self) -> (on: bool)
        ensures
            on == self@.highlight_subcommand_name,
    {
        self.highlight_subcommand_name
    }
}

impl Default for Settings<'static> {
    fn default() -> (settings: Self)
        ensures
            settings@ == default_settings(),
    {
        Self::new()
    }
}

} // verus!
