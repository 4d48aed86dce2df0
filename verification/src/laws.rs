//! What holds of the rendered text for every command and every setting.

use crate::argument::{
    defaults_block, possible_values_block, shows_value_syntax, takes_values, value_names,
    value_names_text, value_syntax,
};
use crate::model::{Action, ArgumentView, Command, CommandView, ValueRange};
use crate::render::{
    document, group_heading, group_members, group_order, heading_line, heading_markers, is_help,
    render_command, render_subcommands, subcommand_entries,
};
use crate::settings::{Settings, SettingsView, Subcommands};
use crate::text::upper_ascii;
use vstd::prelude::*;

verus! {

/// Rendering the same command under the same settings twice gives the
/// same text: the document is a function of the content of the two.
pub proof fn lemma_same_input_same_document(
    first: String,
    second: String,
    cmd: Command,
    settings: Settings,
)
    requires
        first@ == document(cmd@, settings@),
        second@ == document(cmd@, settings@),
    ensures
        first@ == second@,
{
}

/// The help subcommand is never listed: the list of subcommands is the
/// same without it.
pub proof fn lemma_help_is_not_listed(
    children: Seq<CommandView>,
    i: int,
    parent: Seq<char>,
    mode: Subcommands,
    prefix: Seq<char>,
)
    requires
        0 <= i < children.len(),
        is_help(children[i]),
    ensures
        subcommand_entries(children, parent, mode, prefix) == subcommand_entries(
            children.remove(i),
            parent,
            mode,
            prefix,
        ),
    decreases children.len(),
{
    if i == children.len() - 1 {
        assert(children.remove(i) == children.drop_last());
    } else {
        lemma_help_is_not_listed(children.drop_last(), i, parent, mode, prefix);
        assert(children.remove(i).drop_last() == children.drop_last().remove(i));
        assert(children.remove(i).last() == children.last());
    }
}

/// The help subcommand gets no section, whatever the settings: the
/// sections of the subcommands are the same without it.
pub proof fn lemma_help_is_not_rendered(
    children: Seq<CommandView>,
    i: int,
    settings: SettingsView,
    level: nat,
    prefix: Seq<char>,
)
    requires
        0 <= i < children.len(),
        is_help(children[i]),
    ensures
        render_subcommands(children, settings, level, prefix) == render_subcommands(
            children.remove(i),
            settings,
            level,
            prefix,
        ),
    decreases children.len(),
{
    if i == children.len() - 1 {
        assert(children.remove(i) == children.drop_last());
    } else {
        lemma_help_is_not_rendered(children.drop_last(), i, settings, level, prefix);
        assert(children.remove(i).drop_last() == children.drop_last().remove(i));
        assert(children.remove(i).last() == children.last());
    }
}

/// Nothing of the help subcommand but its name reaches the document: with
/// any other help subcommand in its place the section of the parent, and
/// all that follows it, is the same.
pub proof fn lemma_help_is_ignored(
    cmd: CommandView,
    i: int,
    other: CommandView,
    settings: SettingsView,
    level: nat,
    prefix: Seq<char>,
)
    requires
        0 <= i < cmd.subcommands.len(),
        is_help(cmd.subcommands[i]),
        is_help(other),
    ensures
        render_command(cmd, settings, level, prefix) == render_command(
            CommandView { subcommands: cmd.subcommands.update(i, other), ..cmd },
            settings,
            level,
            prefix,
        ),
{
    let children = cmd.subcommands;
    let changed = children.update(i, other);
    assert(changed.remove(i) == children.remove(i));
    lemma_help_is_not_listed(children, i, cmd.name, settings.subcommands, prefix);
    lemma_help_is_not_listed(changed, i, cmd.name, settings.subcommands, prefix);
    let below = prefix + cmd.name + " "@;
    lemma_help_is_not_rendered(children, i, settings, level + 1, below);
    lemma_help_is_not_rendered(changed, i, settings, level + 1, below);
}

/// Whether `part` stands somewhere in `whole`.
pub open spec fn occurs_in(part: Seq<char>, whole: Seq<char>) -> bool {
    exists|before: Seq<char>, after: Seq<char>| whole == #[trigger] (before + part + after)
}

/// The command reached from `cmd` along `path`: at each step the index of
/// a subcommand.
pub open spec fn descendant(cmd: CommandView, path: Seq<int>) -> CommandView
    decreases path.len(),
{
    if path.len() == 0 {
        cmd
    } else {
        descendant(cmd.subcommands[path[0]], path.drop_first())
    }
}

/// `path` leads from `cmd` to a descendant through subcommands that exist
/// and are not the help subcommand.
pub open spec fn leads_to_section(cmd: CommandView, path: Seq<int>) -> bool
    decreases path.len(),
{
    path.len() == 0 || (0 <= path[0] < cmd.subcommands.len() && !is_help(
        cmd.subcommands[path[0]],
    ) && leads_to_section(cmd.subcommands[path[0]], path.drop_first()))
}

/// The names of the commands above the descendant of `cmd` at `path`, each
/// followed by a space, after those in `prefix`.
pub open spec fn names_above(cmd: CommandView, prefix: Seq<char>, path: Seq<int>) -> Seq<char>
    decreases path.len(),
{
    if path.len() == 0 {
        prefix
    } else {
        names_above(cmd.subcommands[path[0]], prefix + cmd.name + " "@, path.drop_first())
    }
}

proof fn lemma_occurs_within(
    part: Seq<char>,
    middle: Seq<char>,
    before: Seq<char>,
    after: Seq<char>,
)
    requires
        occurs_in(part, middle),
    ensures
        occurs_in(part, before + middle + after),
{
    let (b, a) = choose|b: Seq<char>, a: Seq<char>| middle == #[trigger] (b + part + a);
    assert(before + middle + after == (before + b) + part + (a + after));
}

proof fn lemma_section_among_subcommands(
    children: Seq<CommandView>,
    k: int,
    settings: SettingsView,
    level: nat,
    prefix: Seq<char>,
)
    requires
        0 <= k < children.len(),
        !is_help(children[k]),
    ensures
        occurs_in(
            render_command(children[k], settings, level, prefix),
            render_subcommands(children, settings, level, prefix),
        ),
    decreases children.len(),
{
    let section = render_command(children[k], settings, level, prefix);
    let earlier = render_subcommands(children.drop_last(), settings, level, prefix);
    let empty = Seq::<char>::empty();
    if k == children.len() - 1 {
        assert(render_subcommands(children, settings, level, prefix) == earlier + section
            + empty);
    } else {
        lemma_section_among_subcommands(children.drop_last(), k, settings, level, prefix);
        let last = if is_help(children.last()) {
            empty
        } else {
            render_command(children.last(), settings, level, prefix)
        };
        lemma_occurs_within(section, earlier, empty, last);
        assert(render_subcommands(children, settings, level, prefix) == empty + earlier + last);
    }
}

/// A section opens with its heading, and the heading with a line break, as
/// many heading markers as the section's level, and a space.
pub proof fn lemma_section_opens_with_heading(
    cmd: CommandView,
    settings: SettingsView,
    level: nat,
    prefix: Seq<char>,
)
    ensures
        heading_line(cmd.name, settings, level, prefix).is_prefix_of(
            render_command(cmd, settings, level, prefix),
        ),
        ("\n"@ + heading_markers(level) + " "@).is_prefix_of(
            heading_line(cmd.name, settings, level, prefix),
        ),
        heading_markers(level).len() == level,
        forall|i: int| 0 <= i < level ==> heading_markers(level)[i] == '#',
{
}

/// The heading level of a command is the initial level plus its depth:
/// where subcommands are flattened, the section of a command that lies
/// `path.len()` steps below `cmd` stands in the text for `cmd` as it is
/// rendered `path.len()` levels further down, under the names of the
/// commands above it. In the two other modes only `cmd` itself has a
/// section.
pub proof fn lemma_heading_level_follows_depth(
    cmd: CommandView,
    settings: SettingsView,
    level: nat,
    prefix: Seq<char>,
    path: Seq<int>,
)
    requires
        leads_to_section(cmd, path),
        path.len() > 0 ==> settings.subcommands == Subcommands::Flatten,
    ensures
        occurs_in(
            render_command(
                descendant(cmd, path),
                settings,
                level + path.len(),
                names_above(cmd, prefix, path),
            ),
            render_command(cmd, settings, level, prefix),
        ),
    decreases path.len(),
{
    let whole = render_command(cmd, settings, level, prefix);
    let empty = Seq::<char>::empty();
    if path.len() == 0 {
        assert(whole == empty + whole + empty);
    } else {
        let child = cmd.subcommands[path[0]];
        let below = prefix + cmd.name + " "@;
        let target = render_command(
            descendant(cmd, path),
            settings,
            level + path.len(),
            names_above(cmd, prefix, path),
        );
        lemma_heading_level_follows_depth(child, settings, level + 1, below, path.drop_first());
        let child_section = render_command(child, settings, level + 1, below);
        assert(occurs_in(target, child_section));
        lemma_section_among_subcommands(cmd.subcommands, path[0], settings, level + 1, below);
        let sections = render_subcommands(cmd.subcommands, settings, level + 1, below);
        let (b, a) = choose|b: Seq<char>, a: Seq<char>| sections == #[trigger] (b + child_section + a);
        lemma_occurs_within(target, child_section, b, a);
        let head = whole.take(whole.len() - sections.len());
        assert(whole == head + sections + empty);
        lemma_occurs_within(target, sections, head, empty);
    }
}

/// In a document, the section of the command `path.len()` steps below the
/// root is rendered at the initial heading level plus `path.len()`.
pub proof fn lemma_document_heading_levels(
    cmd: CommandView,
    settings: SettingsView,
    path: Seq<int>,
)
    requires
        leads_to_section(cmd, path),
        path.len() > 0 ==> settings.subcommands == Subcommands::Flatten,
    ensures
        occurs_in(
            render_command(
                descendant(cmd, path),
                settings,
                settings.heading_level + path.len(),
                names_above(cmd, Seq::empty(), path),
            ),
            document(cmd, settings),
        ),
{
    lemma_heading_level_follows_depth(cmd, settings, settings.heading_level, Seq::empty(), path);
}

/// Some argument of `args` is listed under `heading`.
pub open spec fn is_heading_of(args: Seq<ArgumentView>, heading: Seq<char>) -> bool {
    exists|i: int| 0 <= i < args.len() && group_heading(#[trigger] args[i]) == heading
}

/// Among `args`, an argument under the heading `first` stands before every
/// argument under the heading `second`.
pub open spec fn is_seen_before(
    args: Seq<ArgumentView>,
    first: Seq<char>,
    second: Seq<char>,
) -> bool {
    exists|i: int|
        0 <= i < args.len() && group_heading(#[trigger] args[i]) == first && forall|j: int|
            0 <= j <= i ==> group_heading(#[trigger] args[j]) != second
}

/// Grouping is stable. The groups are the headings of the arguments, each
/// once, and they stand in the order in which the headings first occur.
pub proof fn lemma_groups_in_first_seen_order(args: Seq<ArgumentView>)
    ensures
        group_order(args).no_duplicates(),
        forall|i: int|
            0 <= i < args.len() ==> group_order(args).contains(group_heading(#[trigger] args[i])),
        forall|k: int|
            0 <= k < group_order(args).len() ==> is_heading_of(
                args,
                #[trigger] group_order(args)[k],
            ),
        forall|a: int, b: int|
            0 <= a < b < group_order(args).len() ==> is_seen_before(
                args,
                #[trigger] group_order(args)[a],
                #[trigger] group_order(args)[b],
            ),
    decreases args.len(),
{
    if args.len() > 0 {
        let init = args.drop_last();
        let heading = group_heading(args.last());
        let before = group_order(init);
        let order = group_order(args);
        let fresh = !before.contains(heading);
        lemma_groups_in_first_seen_order(init);
        assert(forall|k: int| 0 <= k < before.len() ==> order[k] == before[k]);
        assert(forall|i: int| 0 <= i < init.len() ==> init[i] == args[i]);

        assert forall|i: int| 0 <= i < args.len() implies order.contains(
            group_heading(#[trigger] args[i]),
        ) by {
            if i < init.len() {
                assert(before.contains(group_heading(init[i])));
                let k = before.index_of(group_heading(init[i]));
                assert(order[k] == group_heading(args[i]));
            } else if fresh {
                assert(order[before.len() as int] == heading);
            } else {
                let k = before.index_of(heading);
                assert(order[k] == heading);
            }
        }

        assert forall|k: int| 0 <= k < order.len() implies is_heading_of(
            args,
            #[trigger] order[k],
        ) by {
            if k < before.len() {
                assert(is_heading_of(init, before[k]));
                let i = choose|i: int|
                    0 <= i < init.len() && group_heading(#[trigger] init[i]) == before[k];
                assert(group_heading(args[i]) == order[k]);
            } else {
                assert(group_heading(args[args.len() - 1]) == order[k]);
            }
        }

        assert forall|a: int, b: int| 0 <= a < b < order.len() implies is_seen_before(
            args,
            #[trigger] order[a],
            #[trigger] order[b],
        ) by {
            if b < before.len() {
                assert(is_seen_before(init, before[a], before[b]));
                let i = choose|i: int|
                    0 <= i < init.len() && group_heading(#[trigger] init[i]) == before[a]
                        && forall|j: int|
                        0 <= j <= i ==> group_heading(#[trigger] init[j]) != before[b];
                assert(group_heading(args[i]) == order[a]);
                assert forall|j: int| 0 <= j <= i implies group_heading(#[trigger] args[j])
                    != order[b] by {
                    assert(init[j] == args[j]);
                }
            } else {
                assert(order[b] == heading);
                assert(is_heading_of(init, before[a]));
                let i = choose|i: int|
                    0 <= i < init.len() && group_heading(#[trigger] init[i]) == before[a];
                assert(group_heading(args[i]) == order[a]);
                assert forall|j: int| 0 <= j <= i implies group_heading(#[trigger] args[j])
                    != order[b] by {
                    assert(before.contains(group_heading(init[j])));
                }
            }
        }
    }
}

/// Within a group the arguments keep their order: the members of a group
/// among `front + back` are its members among `front`, then its members
/// among `back`.
pub proof fn lemma_group_members_keep_order(
    front: Seq<ArgumentView>,
    back: Seq<ArgumentView>,
    heading: Seq<char>,
)
    ensures
        group_members(front + back, heading) == group_members(front, heading) + group_members(
            back,
            heading,
        ),
    decreases back.len(),
{
    if back.len() == 0 {
        assert(front + back == front);
    } else {
        lemma_group_members_keep_order(front, back.drop_last(), heading);
        assert((front + back).drop_last() == front + back.drop_last());
        assert((front + back).last() == back.last());
    }
}

/// The sub-bullets for default values and for possible values are there
/// exactly where the argument has such values.
pub proof fn lemma_value_blocks_follow_values(arg: ArgumentView)
    ensures
        arg.default_values.len() == 0 <==> defaults_block(arg) == Seq::<char>::empty(),
        arg.possible_values.len() == 0 <==> possible_values_block(arg) == Seq::<char>::empty(),
{
    reveal_strlit("\n");
    if arg.default_values.len() > 0 {
        assert(defaults_block(arg).len() > 0);
    }
    if arg.possible_values.len() > 0 {
        assert(possible_values_block(arg).len() > 0);
    }
}

/// A flag with one optional value that must follow an equals sign, and
/// without a value name of its own, has the syntax `[=<ID>]` in backticks,
/// where `ID` is its identifier in upper case.
pub proof fn lemma_optional_value_after_equals(arg: ArgumentView)
    requires
        !arg.positional,
        arg.require_equals,
        arg.num_args == Some(ValueRange { min: 0, max: 1 }),
        arg.value_names.is_none(),
    ensures
        shows_value_syntax(arg),
        value_syntax(arg) == "`[=<"@ + upper_ascii(arg.id) + ">]`"@,
{
    reveal_strlit("`");
    reveal_strlit("[=");
    reveal_strlit("<");
    reveal_strlit(">");
    reveal_strlit("]");
    reveal_strlit("`[=<");
    reveal_strlit(">]`");
    let names = value_names(arg);
    assert(names.len() == 1);
    assert(names[0] == upper_ascii(arg.id));
    assert(value_names_text(arg) == "<"@ + upper_ascii(arg.id) + ">"@);
}

/// A required positional argument with exactly one value, without a value
/// name of its own and without the append action, has the syntax `<ID>` in
/// backticks, where `ID` is its identifier in upper case.
pub proof fn lemma_required_positional_value(arg: ArgumentView)
    requires
        arg.positional,
        arg.required,
        arg.num_args == Some(ValueRange { min: 1, max: 1 }),
        arg.value_names.is_none(),
        arg.action != Action::Append,
    ensures
        shows_value_syntax(arg),
        value_syntax(arg) == "`<"@ + upper_ascii(arg.id) + ">`"@,
{
    reveal_strlit("`");
    reveal_strlit("<");
    reveal_strlit(">");
    reveal_strlit("`<");
    reveal_strlit(">`");
    let names = value_names(arg);
    assert(names.len() == 1);
    assert(names[0] == upper_ascii(arg.id));
    assert(value_names_text(arg) == "<"@ + upper_ascii(arg.id) + ">"@);
}

/// An argument that counts and takes no value has the syntax `...` in
/// backticks.
pub proof fn lemma_counting_syntax(arg: ArgumentView)
    requires
        arg.action == Action::Count,
        !takes_values(arg),
    ensures
        shows_value_syntax(arg),
        value_syntax(arg) == "`...`"@,
{
    reveal_strlit("`");
    reveal_strlit("...");
    reveal_strlit("`...`");
}

} // verus!
