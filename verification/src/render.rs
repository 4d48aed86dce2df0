//! A command tree as a Markdown document.
//!
//! Each command becomes a section: a heading, the description, the usage,
//! the list of subcommands and the arguments under their group headings.
//! With flattened subcommands the sections of the subcommands follow, one
//! heading level down.

use crate::argument::render_argument;
use crate::model::{Argument, ArgumentView, Command, CommandView};
use crate::settings::{Settings, SettingsView, Subcommands};
use crate::text::{
    push_char, push_if, push_replaced, push_repeated, repeat, replace_char, same_text,
};
use vstd::prelude::*;
use vstd::string::StringExecFns;

verus! {

/// The markers that open a heading of the given level.
pub open spec fn heading_markers(level: nat) -> Seq<char> {
    repeat('#', level)
}

/// The subcommand that prints help; it is never documented.
pub open spec fn is_help(cmd: CommandView) -> bool {
    cmd.name == "help"@
}

/// The heading of a command's section: the markers of its level, then the
/// prompt, the names of the commands above it and its own name. The prompt
/// is followed by a space; with monospace headings the text is set in
/// backticks; with emphasis the command's own name is bold.
pub open spec fn heading_line(
    name: Seq<char>,
    settings: SettingsView,
    level: nat,
    prefix: Seq<char>,
) -> Seq<char> {
    let mono = if settings.monospace_headings {
        "`"@
    } else {
        Seq::empty()
    };
    let bold = if settings.highlight_subcommand_name {
        "**"@
    } else {
        Seq::empty()
    };
    let prompt = match settings.prompt {
        Some(p) => p + " "@,
        None => Seq::empty(),
    };
    "\n"@ + heading_markers(level) + " "@ + mono + prompt + prefix + mono + bold + mono + name
        + mono + bold + "\n\n"@
}

/// The description of a command: the long form where there is one, else
/// the short one.
pub open spec fn preferred_about(cmd: CommandView) -> Option<Seq<char>> {
    if cmd.long_about.is_some() {
        cmd.long_about
    } else {
        cmd.about
    }
}

/// The description as a paragraph; nothing where there is none.
pub open spec fn description_block(cmd: CommandView) -> Seq<char> {
    match preferred_about(cmd) {
        Some(about) => about + "\n\n"@,
        None => Seq::empty(),
    }
}

/// The usage as a fenced block; nothing where the usage is empty.
pub open spec fn usage_block(usage: Seq<char>) -> Seq<char> {
    if usage.len() == 0 {
        Seq::empty()
    } else {
        "\n```text\n"@ + usage + "\n```\n\n"@
    }
}

/// The names of the commands above a command as they stand in an anchor:
/// with a hyphen for each space.
pub open spec fn anchor_prefix(prefix: Seq<char>) -> Seq<char> {
    replace_char(prefix, ' ', '-')
}

/// The name of a subcommand in the list of its parent: a link to its
/// section, a link to its own file, or plain text.
pub open spec fn subcommand_link(
    child: Seq<char>,
    parent: Seq<char>,
    mode: Subcommands,
    prefix: Seq<char>,
) -> Seq<char> {
    match mode {
        Subcommands::Flatten => " - **[`"@ + child + "`](#"@ + anchor_prefix(prefix) + "-"@
            + parent + "-"@ + child + ")**"@,
        Subcommands::Linked => " - **[`"@ + child + "`]("@ + parent + "/"@ + child + ".md)**"@,
        Subcommands::Unlinked => " - **`"@ + child + "`**"@,
    }
}

/// The line of one subcommand in the list of its parent: its name, then a
/// colon and its short description where it has one.
pub open spec fn subcommand_entry(
    child: CommandView,
    parent: Seq<char>,
    mode: Subcommands,
    prefix: Seq<char>,
) -> Seq<char> {
    subcommand_link(child.name, parent, mode, prefix) + (match child.about {
        Some(about) => ": "@ + about,
        None => Seq::empty(),
    }) + "\n"@
}

/// The lines of the subcommands, in order, without the help subcommand.
pub open spec fn subcommand_entries(
    children: Seq<CommandView>,
    parent: Seq<char>,
    mode: Subcommands,
    prefix: Seq<char>,
) -> Seq<char>
    decreases children.len(),
{
    if children.len() == 0 {
        Seq::empty()
    } else {
        subcommand_entries(children.drop_last(), parent, mode, prefix) + if is_help(
            children.last(),
        ) {
            Seq::empty()
        } else {
            subcommand_entry(children.last(), parent, mode, prefix)
        }
    }
}

/// The list of subcommands under its heading, one level below the
/// command's own; nothing for a command without subcommands.
pub open spec fn subcommand_list(
    cmd: CommandView,
    settings: SettingsView,
    level: nat,
    prefix: Seq<char>,
) -> Seq<char> {
    if cmd.subcommands.len() == 0 {
        Seq::empty()
    } else {
        heading_markers(level + 1) + " subcommands\n\n"@ + subcommand_entries(
            cmd.subcommands,
            cmd.name,
            settings.subcommands,
            prefix,
        )
    }
}

/// The heading an argument is listed under: its own, or `arguments` for a
/// positional argument and `options` for any other.
pub open spec fn group_heading(arg: ArgumentView) -> Seq<char> {
    match arg.help_heading {
        Some(heading) => heading,
        None => if arg.positional {
            "arguments"@
        } else {
            "options"@
        },
    }
}

/// The group headings of `args`, each once, in the order in which they
/// first occur.
pub open spec fn group_order(args: Seq<ArgumentView>) -> Seq<Seq<char>>
    decreases args.len(),
{
    if args.len() == 0 {
        Seq::empty()
    } else {
        let before = group_order(args.drop_last());
        if before.contains(group_heading(args.last())) {
            before
        } else {
            before.push(group_heading(args.last()))
        }
    }
}

/// The arguments listed under `heading`, rendered in the order in which
/// the command declares them.
pub open spec fn group_members(args: Seq<ArgumentView>, heading: Seq<char>) -> Seq<char>
    decreases args.len(),
{
    if args.len() == 0 {
        Seq::empty()
    } else {
        group_members(args.drop_last(), heading) + if group_heading(args.last()) == heading {
            render_argument(args.last())
        } else {
            Seq::empty()
        }
    }
}

/// One group of arguments: its heading, one level below the command's own,
/// its arguments and an empty line.
pub open spec fn argument_group(args: Seq<ArgumentView>, heading: Seq<char>, level: nat) -> Seq<
    char,
> {
    "\n"@ + heading_markers(level + 1) + " "@ + heading + "\n\n"@ + group_members(args, heading)
        + "\n"@
}

/// The groups with the given headings, in that order.
pub open spec fn argument_groups(
    args: Seq<ArgumentView>,
    headings: Seq<Seq<char>>,
    level: nat,
) -> Seq<char>
    decreases headings.len(),
{
    if headings.len() == 0 {
        Seq::empty()
    } else {
        argument_groups(args, headings.drop_last(), level) + argument_group(
            args,
            headings.last(),
            level,
        )
    }
}

/// The arguments of a command, grouped by heading; the groups stand in the
/// order in which their headings first occur among the arguments.
pub open spec fn arguments_section(args: Seq<ArgumentView>, level: nat) -> Seq<char> {
    argument_groups(args, group_order(args), level)
}

/// The section of a command at the given heading level, where `prefix`
/// holds the names of the commands above it, each followed by a space.
/// With flattened subcommands, the sections of the subcommands follow.
pub open spec fn render_command(
    cmd: CommandView,
    settings: SettingsView,
    level: nat,
    prefix: Seq<char>,
) -> Seq<char>
    decreases cmd,
{
    heading_line(cmd.name, settings, level, prefix) + description_block(cmd) + usage_block(
        cmd.usage,
    ) + subcommand_list(cmd, settings, level, prefix) + arguments_section(cmd.args, level)
        + if settings.subcommands == Subcommands::Flatten {
        render_subcommands(cmd.subcommands, settings, level + 1, prefix + cmd.name + " "@)
    } else {
        Seq::empty()
    }
}

/// The sections of the given subcommands, in order, without the help
/// subcommand.
pub open spec fn render_subcommands(
    children: Seq<CommandView>,
    settings: SettingsView,
    level: nat,
    prefix: Seq<char>,
) -> Seq<char>
    decreases children,
{
    if children.len() == 0 {
        Seq::empty()
    } else {
        render_subcommands(children.drop_last(), settings, level, prefix) + if is_help(
            children.last(),
        ) {
            Seq::empty()
        } else {
            render_command(children.last(), settings, level, prefix)
        }
    }
}

/// The whole document for `cmd`: its section at the initial heading level,
/// with no command above it.
pub open spec fn document(cmd: CommandView, settings: SettingsView) -> Seq<char> {
    render_command(cmd, settings, settings.heading_level, Seq::empty())
}

/// The characters of each string slice of a list.
spec fn slice_texts(list: Seq<&str>) -> Seq<Seq<char>> {
    list.map_values(|t: &str| t@)
}

/// The heading `arg` is listed under.
fn group_heading_of(arg: &Argument) -> (heading: &str)
    ensures
        heading@ == group_heading(arg@),
{
    match &arg.help_heading {
        Some(heading) => heading.as_str(),
        None => if arg.positional {
            "arguments"
        } else {
            "options"
        },
    }
}

/// Whether `list` holds `text`.
fn holds_text(list: &Vec<&str>, text: &str) -> (found: bool)
    ensures
        found == slice_texts(list@).contains(text@),
{
    let mut i: usize = 0;
    while i < list.len()
        invariant
            i <= list.len(),
            forall|j: int| 0 <= j < i ==> slice_texts(list@)[j] != text@,
        decreases list.len() - i,
    {
        if same_text(list[i], text) {
            assert(slice_texts(list@)[i as int] == text@);
            return true;
        }
        i += 1;
    }
    false
}

/// The group headings of the arguments of `cmd`, each once, in the order
/// in which they first occur.
fn group_headings(cmd: &Command) -> (headings: Vec<&str>)
    ensures
        slice_texts(headings@) == group_order(cmd@.args),
{
    let mut headings: Vec<&str> = Vec::new();
    let mut i: usize = 0;
    assert(cmd@.args.take(0).len() == 0);
    while i < cmd.args.len()
        invariant
            i <= cmd.args.len(),
            slice_texts(headings@) == group_order(cmd@.args.take(i as int)),
        decreases cmd.args.len() - i,
    {
        let heading = group_heading_of(&cmd.args[i]);
        proof {
            let seen = cmd@.args.take(i + 1);
            assert(seen.drop_last() == cmd@.args.take(i as int));
            assert(seen.last() == cmd.args[i as int]@);
        }
        if !holds_text(&headings, heading) {
            let ghost before = headings@;
            headings.push(heading);
            assert(slice_texts(headings@) == slice_texts(before).push(heading@));
        }
        i += 1;
    }
    assert(cmd@.args.take(cmd.args.len() as int) == cmd@.args);
    headings
}

/// Appends the description of `cmd`, if it has one.
fn fmt_about(cmd: &Command, writer: &mut String)
    ensures
        final(writer)@ == old(writer)@ + description_block(cmd@),
{
    if let Some(about) = &cmd.long_about {
        writer.append(about.as_str());
        writer.append("\n\n");
    } else if let Some(about) = &cmd.about {
        writer.append(about.as_str());
        writer.append("\n\n");
    }
}

/// Appends the usage of `cmd` as a fenced block, unless it is empty.
fn fmt_usage(cmd: &Command, writer: &mut String)
    ensures
        final(writer)@ == old(writer)@ + usage_block(cmd@.usage),
{
    if !cmd.usage.as_str().is_empty() {
        writer.append("\n```text\n");
        writer.append(cmd.usage.as_str());
        writer.append("\n```\n\n");
    }
}

impl<'a> Settings<'a> {
    /// Appends the heading of the section of `cmd`.
    fn fmt_heading(
        &self,
        cmd: &Command,
        writer: &mut String,
        heading: &str,
        parent_name: &str,
        Ghost(level): Ghost<nat>,
    )
        requires
            heading@ == heading_markers(level),
        ensures
            final(writer)@ == old(writer)@ + heading_line(
                cmd@.name,
                self@,
                level,
                parent_name@,
            ),
    {
        let mono = self.monospace_headings();
        let bold = self.highlight_subcommand_name();
        writer.append("\n");
        writer.append(heading);
        writer.append(" ");
        push_if(writer, mono, "`");
        self.fmt_prompt(writer);
        writer.append(parent_name);
        push_if(writer, mono, "`");
        push_if(writer, bold, "**");
        push_if(writer, mono, "`");
        writer.append(cmd.name.as_str());
        push_if(writer, mono, "`");
        push_if(writer, bold, "**");
        writer.append("\n\n");
    }

    /// Appends the prompt and a space, where there is a prompt.
    fn fmt_prompt(&self, writer: &mut String)
        ensures
            final(writer)@ == old(writer)@ + match self@.prompt {
                Some(p) => p + " "@,
                None => Seq::empty(),
            },
    {
        if let Some(prompt) = self.prompt() {
            writer.append(prompt);
            writer.append(" ");
        }
    }

    /// Appends the line of the subcommand `child` in the list of `cmd`.
    fn fmt_subcommand_entry(
        &self,
        cmd: &Command,
        child: &Command,
        writer: &mut String,
        parent_name: &str,
    )
        ensures
            final(writer)@ == old(writer)@ + subcommand_entry(
                child@,
                cmd@.name,
                self@.subcommands,
                parent_name@,
            ),
    {
        let name = cmd.name.as_str();
        let subcmd_name = child.name.as_str();
        match self.subcommand_mode() {
            Subcommands::Flatten => {
                writer.append(" - **[`");
                writer.append(subcmd_name);
                writer.append("`](#");
                push_replaced(writer, parent_name, ' ', '-');
                writer.append("-");
                writer.append(name);
                writer.append("-");
                writer.append(subcmd_name);
                writer.append(")**");
            },
            Subcommands::Linked => {
                writer.append(" - **[`");
                writer.append(subcmd_name);
                writer.append("`](");
                writer.append(name);
                writer.append("/");
                writer.append(subcmd_name);
                writer.append(".md)**");
            },
            Subcommands::Unlinked => {
                writer.append(" - **`");
                writer.append(subcmd_name);
                writer.append("`**");
            },
        }
        if let Some(about) = &child.about {
            writer.append(": ");
            writer.append(about.as_str());
        }
        writer.append("\n");
    }

    /// Appends the list of the subcommands of `cmd` under its heading, if
    /// `cmd` has subcommands.
    fn fmt_subcommand_list(
        &self,
        cmd: &Command,
        writer: &mut String,
        heading: &str,
        parent_name: &str,
        Ghost(level): Ghost<nat>,
    )
        requires
            heading@ == heading_markers(level),
        ensures
            final(writer)@ == old(writer)@ + subcommand_list(cmd@, self@, level, parent_name@),
    {
        proof {
            cmd.lemma_view_subcommands();
        }
        if cmd.subcommands.len() > 0 {
            writer.append(heading);
            push_char(writer, '#');
            writer.append(" subcommands\n\n");
            assert(heading_markers(level).push('#') == heading_markers(level + 1));
            let ghost before = writer@;
            let ghost children = cmd@.subcommands;
            let mut i: usize = 0;
            while i < cmd.subcommands.len()
                invariant
                    i <= cmd.subcommands.len(),
                    children == cmd@.subcommands,
                    children.len() == cmd.subcommands.len(),
                    forall|j: int|
                        0 <= j < children.len() ==> #[trigger] children[j]
                            == cmd.subcommands@[j]@,
                    writer@ == before + subcommand_entries(
                        children.take(i as int),
                        cmd@.name,
                        self@.subcommands,
                        parent_name@,
                    ),
                decreases cmd.subcommands.len() - i,
            {
                let child = &cmd.subcommands[i];
                if !same_text(child.name.as_str(), "help") {
                    self.fmt_subcommand_entry(cmd, child, writer, parent_name);
                }
                proof {
                    let listed = children.take(i + 1);
                    assert(listed.drop_last() == children.take(i as int));
                    assert(listed.last() == child@);
                }
                i += 1;
            }
            assert(children.take(cmd.subcommands.len() as int) == children);
        }
    }

    /// Appends the group of the arguments of `cmd` that are listed under
    /// `name`.
    fn fmt_argument_group(
        &self,
        cmd: &Command,
        name: &str,
        writer: &mut String,
        heading: &str,
        Ghost(level): Ghost<nat>,
    )
        requires
            heading@ == heading_markers(level),
        ensures
            final(writer)@ == old(writer)@ + argument_group(cmd@.args, name@, level),
    {
        writer.append("\n");
        writer.append(heading);
        push_char(writer, '#');
        writer.append(" ");
        writer.append(name);
        writer.append("\n\n");
        assert(heading_markers(level).push('#') == heading_markers(level + 1));
        let ghost before = writer@;
        let mut i: usize = 0;
        while i < cmd.args.len()
            invariant
                i <= cmd.args.len(),
                writer@ == before + group_members(cmd@.args.take(i as int), name@),
            decreases cmd.args.len() - i,
        {
            let arg = &cmd.args[i];
            if same_text(group_heading_of(arg), name) {
                self.fmt_arg(arg, writer);
            }
            proof {
                let seen = cmd@.args.take(i + 1);
                assert(seen.drop_last() == cmd@.args.take(i as int));
                assert(seen.last() == arg@);
            }
            i += 1;
        }
        assert(cmd@.args.take(cmd.args.len() as int) == cmd@.args);
        writer.append("\n");
    }

    /// Appends the arguments of `cmd`, group by group.
    fn fmt_arguments(
        &self,
        cmd: &Command,
        writer: &mut String,
        heading: &str,
        Ghost(level): Ghost<nat>,
    )
        requires
            heading@ == heading_markers(level),
        ensures
            final(writer)@ == old(writer)@ + arguments_section(cmd@.args, level),
    {
        let headings = group_headings(cmd);
        let ghost order = group_order(cmd@.args);
        let mut i: usize = 0;
        while i < headings.len()
            invariant
                i <= headings.len(),
                heading@ == heading_markers(level),
                slice_texts(headings@) == order,
                writer@ == old(writer)@ + argument_groups(cmd@.args, order.take(i as int), level),
            decreases headings.len() - i,
        {
            self.fmt_argument_group(cmd, headings[i], writer, heading, Ghost(level));
            proof {
                let shown = order.take(i + 1);
                assert(shown.drop_last() == order.take(i as int));
                assert(shown.last() == headings[i as int]@);
            }
            i += 1;
        }
        assert(order.take(headings.len() as int) == order);
    }

    /// Appends the section of `cmd` and, with flattened subcommands, the
    /// sections of its subcommands. `heading` holds the markers of the
    /// section's heading level, `parent_name` the names of the commands
    /// above `cmd`, each followed by a space.
    fn fmt_command_at_level(
        &self,
        cmd: &Command,
        writer: &mut String,
        heading: &str,
        parent_name: &str,
        Ghost(level): Ghost<nat>,
    )
        requires
            heading@ == heading_markers(level),
        ensures
            final(writer)@ == old(writer)@ + render_command(cmd@, self@, level, parent_name@),
        decreases cmd,
    {
        self.fmt_heading(cmd, writer, heading, parent_name, Ghost(level));
        fmt_about(cmd, writer);
        fmt_usage(cmd, writer);
        self.fmt_subcommand_list(cmd, writer, heading, parent_name, Ghost(level));
        self.fmt_arguments(cmd, writer, heading, Ghost(level));

        let flatten = match self.subcommand_mode() {
            Subcommands::Flatten => true,
            _ => false,
        };
        proof {
            cmd.lemma_view_subcommands();
        }
        if flatten {
            let mut child_heading = heading.to_owned();
            push_char(&mut child_heading, '#');
            let mut child_prefix = parent_name.to_owned();
            child_prefix.append(cmd.name.as_str());
            child_prefix.append(" ");
            assert(child_heading@ == heading_markers(level + 1));

            let ghost before = writer@;
            let ghost children = cmd@.subcommands;
            let mut i: usize = 0;
            while i < cmd.subcommands.len()
                invariant
                    i <= cmd.subcommands.len(),
                    children == cmd@.subcommands,
                    children.len() == cmd.subcommands.len(),
                    forall|j: int|
                        0 <= j < children.len() ==> #[trigger] children[j]
                            == cmd.subcommands@[j]@,
                    child_heading@ == heading_markers(level + 1),
                    writer@ == before + render_subcommands(
                        children.take(i as int),
                        self@,
                        level + 1,
                        child_prefix@,
                    ),
                decreases cmd.subcommands.len() - i,
            {
                let child = &cmd.subcommands[i];
                if !same_text(child.name.as_str(), "help") {
                    self.fmt_command_at_level(
                        child,
                        writer,
                        child_heading.as_str(),
                        child_prefix.as_str(),
                        Ghost(level + 1),
                    );
                }
                proof {
                    let shown = children.take(i + 1);
                    assert(shown.drop_last() == children.take(i as int));
                    assert(shown.last() == child@);
                }
                i += 1;
            }
            assert(children.take(cmd.subcommands.len() as int) == children);
        }
    }

    /// Appends the Markdown document for `cmd` to `writer`.
    pub fn fmt_command(&self, cmd: &Command, writer: &mut String)
        ensures
            final(writer)@ == old(writer)@ + document(cmd@, self@),
    {
        let mut heading = String::new();
        push_repeated(&mut heading, '#', self.heading_level());
        proof {
            reveal_strlit("");
        }
        assert(""@ == Seq::<char>::empty());
        self.fmt_command_at_level(cmd, writer, heading.as_str(), "", Ghost(self@.heading_level));
    }

    /// The Markdown document for `cmd`.
    pub fn command_to_string(&self, cmd: &Command) -> (markdown: String)
        ensures
            markdown@ == document(cmd@, self@),
    {
        let mut s = String::new();
        self.fmt_command(cmd, &mut s);
        s
    }
}

} // verus!
