//! The description of a command-line interface that the renderers read.
//!
//! Each type holds plain data and comes with a view: the same content over
//! sequences of characters, which the rendering contracts are written in.

use vstd::prelude::*;

verus! {

/// What an argument does when it is met on the command line.
#[derive(Copy, Clone, Debug, PartialEq, Eq, Structural)]
pub enum Action {
    /// Stores the value or values given.
    Store,
    /// Stores a boolean; takes no value.
    Toggle,
    /// Adds the value or values given to those already stored.
    Append,
    /// Counts how often the argument occurs.
    Count,
}

/// How many values an argument accepts, both bounds included.
#[derive(Copy, Clone, Debug, PartialEq, Eq, Structural)]
pub struct ValueRange {
    pub min: usize,
    pub max: usize,
}

/// One of the values an argument accepts, with its own description.
#[derive(Clone, Debug, PartialEq, Eq)]
pub struct PossibleValue {
    pub name: String,
    pub help: Option<String>,
}

/// A flag, an option or a positional value of a command.
#[derive(Clone, Debug, PartialEq, Eq)]
pub struct Argument {
    /// The identifier; its upper-case form names the value where no value
    /// name is given.
    pub id: String,
    pub short: Option<char>,
    pub long: Option<String>,
    pub help: Option<String>,
    pub long_help: Option<String>,
    /// The declared number of values; an argument without one takes a
    /// single, optional value.
    pub num_args: Option<ValueRange>,
    /// Matched by position rather than by a flag.
    pub positional: bool,
    pub required: bool,
    /// The value must follow the flag after `=`.
    pub require_equals: bool,
    pub action: Action,
    pub value_names: Option<Vec<String>>,
    pub default_values: Vec<String>,
    pub possible_values: Vec<PossibleValue>,
    /// The environment variable the argument reads, shown only where
    /// `env_supported` holds.
    pub env: Option<String>,
    pub env_supported: bool,
    pub value_delimiter: Option<char>,
    /// The heading the argument is listed under; without one, positional
    /// arguments go under `arguments` and the others under `options`.
    pub help_heading: Option<String>,
}

/// A command with its arguments and subcommands.
#[derive(Debug, PartialEq, Eq)]
pub struct Command {
    pub name: String,
    pub about: Option<String>,
    pub long_about: Option<String>,
    /// The usage text, shown as it is; empty where there is none.
    pub usage: String,
    pub args: Vec<Argument>,
    pub subcommands: Vec<Command>,
}

/// The content of a [`PossibleValue`].
pub ghost struct PossibleValueView {
    pub name: Seq<char>,
    pub help: Option<Seq<char>>,
}

/// The content of an [`Argument`].
pub ghost struct ArgumentView {
    pub id: Seq<char>,
    pub short: Option<char>,
    pub long: Option<Seq<char>>,
    pub help: Option<Seq<char>>,
    pub long_help: Option<Seq<char>>,
    pub num_args: Option<ValueRange>,
    pub positional: bool,
    pub required: bool,
    pub require_equals: bool,
    pub action: Action,
    pub value_names: Option<Seq<Seq<char>>>,
    pub default_values: Seq<Seq<char>>,
    pub possible_values: Seq<PossibleValueView>,
    pub env: Option<Seq<char>>,
    pub env_supported: bool,
    pub value_delimiter: Option<char>,
    pub help_heading: Option<Seq<char>>,
}

/// The content of a [`Command`].
pub ghost struct CommandView {
    pub name: Seq<char>,
    pub about: Option<Seq<char>>,
    pub long_about: Option<Seq<char>>,
    pub usage: Seq<char>,
    pub args: Seq<ArgumentView>,
    pub subcommands: Seq<CommandView>,
}

/// The characters of an optional string.
pub open spec fn opt_text(text: Option<String>) -> Option<Seq<char>> {
    match text {
        Some(t) => Some(t@),
        None => None,
    }
}

/// The characters of each string of a list.
pub open spec fn texts(list: Seq<String>) -> Seq<Seq<char>> {
    list.map_values(|t: String| t@)
}

impl View for PossibleValue {
    type V = PossibleValueView;

    open spec fn view(&self) -> PossibleValueView {
        PossibleValueView { name: self.name@, help: opt_text(self.help) }
    }
}

impl View for Argument {
    type V = ArgumentView;

    open spec fn view(&self) -> ArgumentView {
        ArgumentView {
            id: self.id@,
            short: self.short,
            long: opt_text(self.long),
            help: opt_text(self.help),
            long_help: opt_text(self.long_help),
            num_args: self.num_args,
            positional: self.positional,
            required: self.required,
            require_equals: self.require_equals,
            action: self.action,
            value_names: match self.value_names {
                Some(names) => Some(texts(names@)),
                None => None,
            },
            default_values: texts(self.default_values@),
            possible_values: self.possible_values@.map_values(|v: PossibleValue| v@),
            env: opt_text(self.env),
            env_supported: self.env_supported,
            value_delimiter: self.value_delimiter,
            help_heading: opt_text(self.help_heading),
        }
    }
}

/// The content of a command.
pub open spec fn command_view(cmd: Command) -> CommandView
    decreases cmd, 0nat,
{
    CommandView {
        name: cmd.name@,
        about: opt_text(cmd.about),
        long_about: opt_text(cmd.long_about),
        usage: cmd.usage@,
        args: cmd.args@.map_values(|a: Argument| a@),
        subcommands: command_views(cmd.subcommands@),
    }
}

/// The content of each command of a list.
pub open spec fn command_views(cmds: Seq<Command>) -> Seq<CommandView>
    decreases cmds, 1nat,
{
    if cmds.len() == 0 {
        Seq::empty()
    } else {
        command_views(cmds.drop_last()).push(command_view(cmds.last()))
    }
}

/// The views of a list of commands are the views of its commands, in
/// order.
pub proof fn lemma_command_views(cmds: Seq<Command>)
    ensures
        command_views(cmds).len() == cmds.len(),
        forall|i: int| 0 <= i < cmds.len() ==> #[trigger] command_views(cmds)[i] == cmds[i]@,
    decreases cmds.len(),
{
    if cmds.len() > 0 {
        lemma_command_views(cmds.drop_last());
    }
}

impl View for Command {
    type V = CommandView;

    open spec fn view(&self) -> CommandView {
        command_view(*self)
    }
}

impl Command {
    /// The view of a command holds the views of its subcommands, in order.
    pub proof fn lemma_view_subcommands(&self)
        ensures
            self@.subcommands.len() == self.subcommands@.len(),
            forall|i: int|
                0 <= i < self.subcommands@.len() ==> #[trigger] self@.subcommands[i]
                    == self.subcommands@[i]@,
    {
        lemma_command_views(self.subcommands@);
    }
}

} // verus!
