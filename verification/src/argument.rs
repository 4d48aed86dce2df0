//! One argument as Markdown: its flags, the syntax of its values, its
//! description, and a sub-bullet for each further property.

use crate::model::{opt_text, texts, Action, Argument, ArgumentView, PossibleValueView, ValueRange};
use crate::settings::Settings;
use crate::text::{
    push_char, push_if, push_replaced, push_upper_ascii, replace_char, upper_ascii,
};
use vstd::prelude::*;
use vstd::string::StringExecFns;

verus! {

/// The number of values `arg` accepts: the declared range, or exactly one
/// value where none is declared.
pub open spec fn value_range(arg: ArgumentView) -> ValueRange {
    match arg.num_args {
        Some(range) => range,
        None => ValueRange { min: 1, max: 1 },
    }
}

/// `arg` accepts at least one value.
pub open spec fn takes_values(arg: ArgumentView) -> bool {
    value_range(arg).max != 0
}

/// `arg` may be given without a value: its declared minimum is zero, or it
/// declares no range.
pub open spec fn value_is_optional(arg: ArgumentView) -> bool {
    match arg.num_args {
        Some(range) => range.min == 0,
        None => true,
    }
}

/// `arg` is shown with a value syntax: it takes values or it counts.
pub open spec fn shows_value_syntax(arg: ArgumentView) -> bool {
    takes_values(arg) || arg.action == Action::Count
}

/// What stands between a flag and its value names: `=` where the value is
/// mandatory and must follow an equals sign, `[=` where it is optional and
/// must follow one, `[` where it is only optional. Positional arguments and
/// arguments without values have no marker.
pub open spec fn opening_marker(arg: ArgumentView) -> Seq<char> {
    if takes_values(arg) && !arg.positional {
        if arg.require_equals {
            if value_is_optional(arg) {
                "[="@
            } else {
                "="@
            }
        } else if value_is_optional(arg) {
            "["@
        } else {
            Seq::empty()
        }
    } else {
        Seq::empty()
    }
}

/// The `]` that closes an opening marker with a bracket.
pub open spec fn closing_marker(arg: ArgumentView) -> Seq<char> {
    if takes_values(arg) && !arg.positional && value_is_optional(arg) {
        "]"@
    } else {
        Seq::empty()
    }
}

/// The names that stand for the values of `arg`: the value names given, or
/// the identifier in upper case. A single name is repeated once for each
/// value that is required, and shown once where none is.
pub open spec fn value_names(arg: ArgumentView) -> Seq<Seq<char>> {
    let names = match arg.value_names {
        Some(names) => names,
        None => seq![upper_ascii(arg.id)],
    };
    if names.len() == 1 {
        let count = if value_range(arg).min > 1 {
            value_range(arg).min as nat
        } else {
            1
        };
        Seq::new(count, |i: int| names[0])
    } else {
        names
    }
}

/// Value names of a positional argument that may be left out are set in
/// square brackets, all others in angle brackets.
pub open spec fn in_square_brackets(arg: ArgumentView) -> bool {
    arg.positional && (value_range(arg).min == 0 || !arg.required)
}

/// One value name in square or in angle brackets.
pub open spec fn bracketed(square: bool, name: Seq<char>) -> Seq<char> {
    if square {
        "["@ + name + "]"@
    } else {
        "<"@ + name + ">"@
    }
}

/// The names in their brackets, separated by single spaces.
pub open spec fn joined_names(square: bool, names: Seq<Seq<char>>) -> Seq<char>
    decreases names.len(),
{
    if names.len() == 0 {
        Seq::empty()
    } else if names.len() == 1 {
        bracketed(square, names[0])
    } else {
        joined_names(square, names.drop_last()) + " "@ + bracketed(square, names.last())
    }
}

/// More values may follow those that are named: fewer names are shown than
/// values are accepted, or a positional argument appends.
pub open spec fn accepts_more_values(arg: ArgumentView) -> bool {
    value_names(arg).len() < value_range(arg).max || (arg.positional && arg.action
        == Action::Append)
}

/// The value names of `arg`, followed by `...` where more values may
/// follow. Nothing at all where there is no name.
pub open spec fn value_names_text(arg: ArgumentView) -> Seq<char> {
    if value_names(arg).len() == 0 {
        Seq::empty()
    } else {
        joined_names(in_square_brackets(arg), value_names(arg)) + if accepts_more_values(arg) {
            "..."@
        } else {
            Seq::empty()
        }
    }
}

/// The value syntax of `arg`, a single token in backticks: the value names
/// between the markers, or `...` for an argument that takes no value and
/// counts.
pub open spec fn value_syntax(arg: ArgumentView) -> Seq<char> {
    "`"@ + opening_marker(arg) + if takes_values(arg) {
        value_names_text(arg)
    } else {
        "..."@
    } + closing_marker(arg) + "`"@
}

/// `arg` has a short or a long flag.
pub open spec fn has_flags(arg: ArgumentView) -> bool {
    arg.short.is_some() || arg.long.is_some()
}

/// The value syntax of an argument that has one, after a space where it
/// follows flags.
pub open spec fn value_suffix(arg: ArgumentView) -> Seq<char> {
    if shows_value_syntax(arg) {
        (if has_flags(arg) {
            " "@
        } else {
            Seq::empty()
        }) + value_syntax(arg)
    } else {
        Seq::empty()
    }
}

/// The short flag as `-c` and the long flag as `--name`, each in
/// backticks, with a comma between them where both are there.
pub open spec fn flags_text(arg: ArgumentView) -> Seq<char> {
    (match arg.short {
        Some(c) => "`-"@.push(c) + "`"@ + if arg.long.is_some() {
            ", "@
        } else {
            Seq::empty()
        },
        None => Seq::empty(),
    }) + (match arg.long {
        Some(name) => "`--"@ + name + "`"@,
        None => Seq::empty(),
    })
}

/// The help of `arg`: the long form where there is one, else the short one.
pub open spec fn preferred_help(arg: ArgumentView) -> Option<Seq<char>> {
    if arg.long_help.is_some() {
        arg.long_help
    } else {
        arg.help
    }
}

/// The end of a list line: a colon and the help text on one line, or
/// nothing, and a line break.
pub open spec fn description(help: Option<Seq<char>>) -> Seq<char> {
    match help {
        Some(text) => ": "@ + replace_char(text, '\n', ' ') + "\n"@,
        None => "\n"@,
    }
}

/// Each value in backticks, followed by a space.
pub open spec fn quoted_values(values: Seq<Seq<char>>) -> Seq<char>
    decreases values.len(),
{
    if values.len() == 0 {
        Seq::empty()
    } else {
        quoted_values(values.drop_last()) + "`"@ + values.last() + "` "@
    }
}

/// The sub-bullet with the default values; nothing where there is none.
pub open spec fn defaults_block(arg: ArgumentView) -> Seq<char> {
    if arg.default_values.len() == 0 {
        Seq::empty()
    } else {
        "    - **default:** "@ + quoted_values(arg.default_values) + "\n"@
    }
}

/// The bullet of one possible value, with its description where it has one.
pub open spec fn possible_value_line(value: PossibleValueView) -> Seq<char> {
    "      - `"@ + value.name + "` "@ + description(value.help)
}

/// The bullets of the possible values, in order.
pub open spec fn possible_value_lines(values: Seq<PossibleValueView>) -> Seq<char>
    decreases values.len(),
{
    if values.len() == 0 {
        Seq::empty()
    } else {
        possible_value_lines(values.drop_last()) + possible_value_line(values.last())
    }
}

/// The sub-bullet with the possible values, one bullet each, and an empty
/// line; nothing where there is no possible value.
pub open spec fn possible_values_block(arg: ArgumentView) -> Seq<char> {
    if arg.possible_values.len() == 0 {
        Seq::empty()
    } else {
        "    - **possible values:** \n"@ + possible_value_lines(arg.possible_values) + "\n"@
    }
}

/// The sub-bullet with the environment variable, where environment
/// variables are supported and `arg` names one.
pub open spec fn env_block(arg: ArgumentView) -> Seq<char> {
    match arg.env {
        Some(name) if arg.env_supported => "    - **env:** `"@ + name + "`\n"@,
        _ => Seq::empty(),
    }
}

/// The sub-bullet with the delimiter between values, where `arg` has one.
pub open spec fn delimiter_block(arg: ArgumentView) -> Seq<char> {
    match arg.value_delimiter {
        Some(c) => "    - **value delimiter:** `"@.push(c) + "`\n"@,
        None => Seq::empty(),
    }
}

/// The Markdown of one argument: a list line with flags, value syntax and
/// description, then the sub-bullets for default values, possible values,
/// environment variable and value delimiter.
pub open spec fn render_argument(arg: ArgumentView) -> Seq<char> {
    " - "@ + flags_text(arg) + value_suffix(arg) + description(preferred_help(arg))
        + defaults_block(arg) + possible_values_block(arg) + env_block(arg) + delimiter_block(
        arg,
    )
}

fn fmt_description(writer: &mut String, help: &Option<String>)
    ensures
        final(writer)@ == old(writer)@ + description(opt_text(*help)),
{
    match help {
        Some(text) => {
            writer.append(": ");
            push_replaced(writer, text.as_str(), '\n', ' ');
            writer.append("\n");
        },
        None => {
            writer.append("\n");
        },
    }
}

fn push_bracketed(writer: &mut String, square: bool, name: &str)
    ensures
        final(writer)@ == old(writer)@ + bracketed(square, name@),
{
    if square {
        writer.append("[");
        writer.append(name);
        writer.append("]");
    } else {
        writer.append("<");
        writer.append(name);
        writer.append(">");
    }
}

/// Appends the given names in their brackets, separated by spaces.
fn push_joined_names(writer: &mut String, square: bool, names: &Vec<String>)
    ensures
        final(writer)@ == old(writer)@ + joined_names(square, texts(names@)),
{
    let mut n: usize = 0;
    while n < names.len()
        invariant
            n <= names.len(),
            writer@ == old(writer)@ + joined_names(square, texts(names@).take(n as int)),
        decreases names.len() - n,
    {
        if n > 0 {
            writer.append(" ");
        }
        push_bracketed(writer, square, names[n].as_str());
        proof {
            let shown = texts(names@).take(n + 1);
            assert(shown.drop_last() == texts(names@).take(n as int));
            assert(shown.last() == names[n as int]@);
        }
        n += 1;
    }
    assert(texts(names@).take(names.len() as int) == texts(names@));
}

/// Appends one name `count` times in its brackets, separated by spaces.
fn push_repeated_name(writer: &mut String, square: bool, name: &str, count: usize)
    ensures
        final(writer)@ == old(writer)@ + joined_names(
            square,
            Seq::new(count as nat, |i: int| name@),
        ),
{
    let ghost all = Seq::new(count as nat, |i: int| name@);
    let mut n: usize = 0;
    while n < count
        invariant
            n <= count,
            all == Seq::new(count as nat, |i: int| name@),
            writer@ == old(writer)@ + joined_names(square, all.take(n as int)),
        decreases count - n,
    {
        if n > 0 {
            writer.append(" ");
        }
        push_bracketed(writer, square, name);
        proof {
            let shown = all.take(n + 1);
            assert(shown.drop_last() == all.take(n as int));
            assert(shown.last() == name@);
        }
        n += 1;
    }
    assert(all.take(count as int) == all);
}

/// The number of values `arg` accepts.
fn declared_range(arg: &Argument) -> (range: ValueRange)
    ensures
        range == value_range(arg@),
{
    match arg.num_args {
        Some(range) => range,
        None => ValueRange { min: 1, max: 1 },
    }
}

/// Appends the flags of `arg`.
fn fmt_flags(writer: &mut String, arg: &Argument)
    ensures
        final(writer)@ == old(writer)@ + flags_text(arg@),
{
    if let Some(short) = arg.short {
        writer.append("`-");
        push_char(writer, short);
        writer.append("`");
        if arg.long.is_some() {
            writer.append(", ");
        }
    }
    if let Some(long) = &arg.long {
        writer.append("`--");
        writer.append(long.as_str());
        writer.append("`");
    }
}

/// Appends the sub-bullet with the default values of `arg`, if it has any.
fn fmt_defaults(writer: &mut String, arg: &Argument)
    ensures
        final(writer)@ == old(writer)@ + defaults_block(arg@),
{
    if arg.default_values.len() > 0 {
        writer.append("    - **default:** ");
        let ghost before = writer@;
        let mut i: usize = 0;
        while i < arg.default_values.len()
            invariant
                i <= arg.default_values.len(),
                writer@ == before + quoted_values(arg@.default_values.take(i as int)),
            decreases arg.default_values.len() - i,
        {
            writer.append("`");
            writer.append(arg.default_values[i].as_str());
            writer.append("` ");
            proof {
                let shown = arg@.default_values.take(i + 1);
                assert(shown.drop_last() == arg@.default_values.take(i as int));
                assert(shown.last() == arg.default_values[i as int]@);
            }
            i += 1;
        }
        assert(arg@.default_values.take(arg.default_values.len() as int) == arg@.default_values);
        writer.append("\n");
    }
}

/// Appends the sub-bullet with the possible values of `arg`, if it has any.
fn fmt_possible_values(writer: &mut String, arg: &Argument)
    ensures
        final(writer)@ == old(writer)@ + possible_values_block(arg@),
{
    if arg.possible_values.len() > 0 {
        writer.append("    - **possible values:** \n");
        let ghost before = writer@;
        let mut i: usize = 0;
        while i < arg.possible_values.len()
            invariant
                i <= arg.possible_values.len(),
                writer@ == before + possible_value_lines(arg@.possible_values.take(i as int)),
            decreases arg.possible_values.len() - i,
        {
            let value = &arg.possible_values[i];
            writer.append("      - `");
            writer.append(value.name.as_str());
            writer.append("` ");
            fmt_description(writer, &value.help);
            proof {
                let shown = arg@.possible_values.take(i + 1);
                assert(shown.drop_last() == arg@.possible_values.take(i as int));
                assert(shown.last() == arg.possible_values[i as int]@);
            }
            i += 1;
        }
        assert(arg@.possible_values.take(arg.possible_values.len() as int)
            == arg@.possible_values);
        writer.append("\n");
    }
}

/// Appends the sub-bullets for the environment variable and the value
/// delimiter of `arg`, as far as it has them.
fn fmt_env_and_delimiter(writer: &mut String, arg: &Argument)
    ensures
        final(writer)@ == old(writer)@ + env_block(arg@) + delimiter_block(arg@),
{
    if arg.env_supported {
        if let Some(env) = &arg.env {
            writer.append("    - **env:** `");
            writer.append(env.as_str());
            writer.append("`\n");
        }
    }
    if let Some(delimiter) = arg.value_delimiter {
        writer.append("    - **value delimiter:** `");
        push_char(writer, delimiter);
        writer.append("`\n");
    }
}

/// Whether `arg` may be given without a value.
fn is_optional_val(arg: &Argument) -> (optional: bool)
    ensures
        optional == value_is_optional(arg@),
{
    match arg.num_args {
        Some(declared) => declared.min == 0,
        None => true,
    }
}

/// Appends the marker that stands before the value names of `arg`.
fn fmt_opening_marker(writer: &mut String, arg: &Argument)
    ensures
        final(writer)@ == old(writer)@ + opening_marker(arg@),
{
    if declared_range(arg).max != 0 && !arg.positional {
        if arg.require_equals {
            if is_optional_val(arg) {
                writer.append("[=");
            } else {
                writer.append("=");
            }
        } else if is_optional_val(arg) {
            writer.append("[");
        }
    }
}

/// Appends the bracket that closes the opening marker of `arg`, where that
/// marker opens one.
fn fmt_closing_marker(writer: &mut String, arg: &Argument)
    ensures
        final(writer)@ == old(writer)@ + closing_marker(arg@),
{
    if declared_range(arg).max != 0 && !arg.positional && is_optional_val(arg) {
        writer.append("]");
    }
}

impl<'a> Settings<'a> {
    /// Appends the value names of `arg`, and `...` where more values may
    /// follow them.
    fn fmt_arg_val(&self, writer: &mut String, arg: &Argument)
        ensures
            final(writer)@ == old(writer)@ + value_names_text(arg@),
    {
        let range = declared_range(arg);
        let square = arg.positional && (range.min == 0 || !arg.required);
        let mut upper = String::new();
        let single: Option<&str> = match &arg.value_names {
            Some(names) => if names.len() == 1 {
                Some(names[0].as_str())
            } else {
                None
            },
            None => {
                push_upper_ascii(&mut upper, arg.id.as_str());
                Some(upper.as_str())
            },
        };
        let count: usize = match single {
            Some(name) => {
                let times: usize = if range.min > 1 {
                    range.min
                } else {
                    1
                };
                push_repeated_name(writer, square, name, times);
                times
            },
            None => match &arg.value_names {
                Some(names) => {
                    push_joined_names(writer, square, names);
                    names.len()
                },
                None => 0,
            },
        };
        if count > 0 {
            let appends = arg.positional && match arg.action {
                Action::Append => true,
                _ => false,
            };
            if count < range.max || appends {
                writer.append("...");
            }
        }
    }

    /// Appends the value syntax of `arg`: the token in backticks.
    fn fmt_value_syntax(&self, arg: &Argument, writer: &mut String)
        ensures
            final(writer)@ == old(writer)@ + value_syntax(arg@),
    {
        writer.append("`");
        fmt_opening_marker(writer, arg);
        if declared_range(arg).max != 0 {
            self.fmt_arg_val(writer, arg);
        } else {
            writer.append("...");
        }
        fmt_closing_marker(writer, arg);
        writer.append("`");
    }

    /// Appends the value syntax of `arg`, where it has one, separated from
    /// the flags by a space.
    fn fmt_arg_suffix(&self, arg: &Argument, writer: &mut String)
        ensures
            final(writer)@ == old(writer)@ + value_suffix(arg@),
    {
        let takes_value = declared_range(arg).max != 0;
        let counts = match arg.action {
            Action::Count => true,
            _ => false,
        };
        if !takes_value && !counts {
            return ;
        }
        push_if(writer, arg.short.is_some() || arg.long.is_some(), " ");
        self.fmt_value_syntax(arg, writer);
    }

    /// Appends the Markdown of one argument to `writer`: its list line and
    /// the sub-bullets that apply to it.
    pub fn fmt_arg(&self, arg: &Argument, writer: &mut String)
        ensures
            final(writer)@ == old(writer)@ + render_argument(arg@),
    {
        writer.append(" - ");
        fmt_flags(writer, arg);
        self.fmt_arg_suffix(arg, writer);
        if arg.long_help.is_some() {
            fmt_description(writer, &arg.long_help);
        } else {
            fmt_description(writer, &arg.help);
        }
        fmt_defaults(writer, arg);
        fmt_possible_values(writer, arg);
        fmt_env_and_delimiter(writer, arg);
    }
}

} // verus!
