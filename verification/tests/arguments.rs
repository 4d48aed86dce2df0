use clapdown::{Action, Argument, PossibleValue, Settings, ValueRange};

/// A positional argument with a single value and nothing else set.
fn positional(id: &str) -> Argument {
    Argument {
        id: id.to_string(),
        short: None,
        long: None,
        help: None,
        long_help: None,
        num_args: Some(ValueRange { min: 1, max: 1 }),
        positional: true,
        required: false,
        require_equals: false,
        action: Action::Store,
        value_names: None,
        default_values: vec![],
        possible_values: vec![],
        env: None,
        env_supported: true,
        value_delimiter: None,
        help_heading: None,
    }
}

/// An option `--<id>` with a single value.
fn option(id: &str) -> Argument {
    let mut arg = positional(id);
    arg.positional = false;
    arg.long = Some(id.to_string());
    arg
}

/// A flag `--<id>` that takes no value.
fn flag(id: &str) -> Argument {
    let mut arg = option(id);
    arg.num_args = Some(ValueRange { min: 0, max: 0 });
    arg.action = Action::Toggle;
    arg
}

fn render(arg: &Argument) -> String {
    let mut out = String::new();
    Settings::new().fmt_arg(arg, &mut out);
    out
}

#[test]
fn optional_value_after_equals() {
    let mut arg = option("id");
    arg.require_equals = true;
    arg.num_args = Some(ValueRange { min: 0, max: 1 });
    assert_eq!(render(&arg), " - `--id` `[=<ID>]`\n");
}

#[test]
fn required_positional_named_by_its_identifier() {
    let mut arg = positional("path");
    arg.required = true;
    assert_eq!(render(&arg), " - `<PATH>`\n");
}

#[test]
fn counting_flag() {
    let mut arg = flag("verbose");
    arg.short = Some('v');
    arg.action = Action::Count;
    assert_eq!(render(&arg), " - `-v`, `--verbose` `...`\n");
}

#[test]
fn flag_without_value_has_no_syntax() {
    assert_eq!(render(&flag("quiet")), " - `--quiet`\n");
}

#[test]
fn short_flag_alone() {
    let mut arg = flag("quiet");
    arg.long = None;
    arg.short = Some('q');
    assert_eq!(render(&arg), " - `-q`\n");
}

#[test]
fn mandatory_value_after_equals() {
    let mut arg = option("color");
    arg.require_equals = true;
    assert_eq!(render(&arg), " - `--color` `=<COLOR>`\n");
}

#[test]
fn optional_value_without_equals() {
    let mut arg = option("color");
    arg.num_args = Some(ValueRange { min: 0, max: 1 });
    assert_eq!(render(&arg), " - `--color` `[<COLOR>]`\n");
}

#[test]
fn mandatory_value_without_equals() {
    assert_eq!(render(&option("color")), " - `--color` `<COLOR>`\n");
}

#[test]
fn undeclared_range_is_one_optional_value() {
    let mut arg = option("color");
    arg.num_args = None;
    assert_eq!(render(&arg), " - `--color` `[<COLOR>]`\n");
}

#[test]
fn optional_positional_in_square_brackets() {
    assert_eq!(render(&positional("base")), " - `[BASE]`\n");
}

#[test]
fn required_positional_without_minimum_in_square_brackets() {
    let mut arg = positional("files");
    arg.required = true;
    arg.num_args = Some(ValueRange { min: 0, max: 3 });
    assert_eq!(render(&arg), " - `[FILES]...`\n");
}

#[test]
fn value_name_replaces_identifier() {
    let mut arg = option("color");
    arg.value_names = Some(vec!["WHEN".to_string()]);
    assert_eq!(render(&arg), " - `--color` `<WHEN>`\n");
}

#[test]
fn identifier_is_upper_cased_in_ascii_only() {
    let mut arg = option("out-dir2é");
    arg.long = Some("out".to_string());
    assert_eq!(render(&arg), " - `--out` `<OUT-DIR2é>`\n");
}

#[test]
fn several_value_names_separated_by_spaces() {
    let mut arg = option("point");
    arg.value_names = Some(vec!["X".to_string(), "Y".to_string()]);
    arg.num_args = Some(ValueRange { min: 2, max: 2 });
    assert_eq!(render(&arg), " - `--point` `<X> <Y>`\n");
}

#[test]
fn single_name_repeated_up_to_the_minimum() {
    let mut arg = option("pair");
    arg.num_args = Some(ValueRange { min: 2, max: 2 });
    assert_eq!(render(&arg), " - `--pair` `<PAIR> <PAIR>`\n");
}

#[test]
fn more_values_than_names() {
    let mut arg = option("include");
    arg.num_args = Some(ValueRange { min: 1, max: usize::MAX });
    assert_eq!(render(&arg), " - `--include` `<INCLUDE>...`\n");
}

#[test]
fn more_values_than_repeated_names() {
    let mut arg = option("include");
    arg.num_args = Some(ValueRange { min: 2, max: 3 });
    assert_eq!(render(&arg), " - `--include` `<INCLUDE> <INCLUDE>...`\n");
}

#[test]
fn appending_positional_accepts_more() {
    let mut arg = positional("path");
    arg.required = true;
    arg.action = Action::Append;
    assert_eq!(render(&arg), " - `<PATH>...`\n");
}

#[test]
fn appending_option_with_all_values_named() {
    let mut arg = option("define");
    arg.action = Action::Append;
    assert_eq!(render(&arg), " - `--define` `<DEFINE>`\n");
}

#[test]
fn empty_list_of_value_names_shows_no_name() {
    let mut arg = option("color");
    arg.value_names = Some(vec![]);
    assert_eq!(render(&arg), " - `--color` ``\n");
}

#[test]
fn counting_positional_without_values() {
    let mut arg = positional("level");
    arg.num_args = Some(ValueRange { min: 0, max: 0 });
    arg.action = Action::Count;
    assert_eq!(render(&arg), " - `...`\n");
}

#[test]
fn short_help_follows_a_colon() {
    let mut arg = flag("quiet");
    arg.help = Some("Say less".to_string());
    assert_eq!(render(&arg), " - `--quiet`: Say less\n");
}

#[test]
fn long_help_is_preferred_and_put_on_one_line() {
    let mut arg = flag("quiet");
    arg.help = Some("Say less".to_string());
    arg.long_help = Some("Say less.\n\nErrors are still shown.\n".to_string());
    assert_eq!(render(&arg), " - `--quiet`: Say less.  Errors are still shown. \n");
}

#[test]
fn default_values_in_a_sub_bullet() {
    let mut arg = option("color");
    arg.default_values = vec!["auto".to_string(), "never".to_string()];
    assert_eq!(
        render(&arg),
        " - `--color` `<COLOR>`\n    - **default:** `auto` `never` \n"
    );
}

#[test]
fn no_blocks_without_values() {
    let arg = option("color");
    let text = render(&arg);
    assert!(!text.contains("**default:**"));
    assert!(!text.contains("**possible values:**"));
    assert!(!text.contains("**env:**"));
    assert!(!text.contains("**value delimiter:**"));
}

#[test]
fn possible_values_with_and_without_help() {
    let mut arg = option("color");
    arg.possible_values = vec![
        PossibleValue { name: "always".to_string(), help: Some("Use\ncolors".to_string()) },
        PossibleValue { name: "never".to_string(), help: None },
    ];
    let text = render(&arg);
    assert_eq!(
        text,
        " - `--color` `<COLOR>`\n    - **possible values:** \n      - `always` : Use colors\n      - `never` \n\n"
    );
    let bullets: Vec<&str> = text.lines().filter(|l| l.starts_with("      - ")).collect();
    assert_eq!(bullets.len(), 2);
    assert_eq!(bullets.iter().filter(|l| l.contains(": ")).count(), 1);
}

#[test]
fn environment_variable_where_supported() {
    let mut arg = option("token");
    arg.env = Some("API_TOKEN".to_string());
    assert_eq!(render(&arg), " - `--token` `<TOKEN>`\n    - **env:** `API_TOKEN`\n");
    arg.env_supported = false;
    assert_eq!(render(&arg), " - `--token` `<TOKEN>`\n");
}

#[test]
fn value_delimiter_in_a_sub_bullet() {
    let mut arg = option("tags");
    arg.value_delimiter = Some(',');
    assert_eq!(render(&arg), " - `--tags` `<TAGS>`\n    - **value delimiter:** `,`\n");
}

#[test]
fn all_sub_bullets_in_order() {
    let mut arg = option("mode");
    arg.short = Some('m');
    arg.help = Some("How to run".to_string());
    arg.default_values = vec!["fast".to_string()];
    arg.possible_values = vec![PossibleValue { name: "fast".to_string(), help: None }];
    arg.env = Some("MODE".to_string());
    arg.value_delimiter = Some(';');
    assert_eq!(
        render(&arg),
        " - `-m`, `--mode` `<MODE>`: How to run\n    - **default:** `fast` \n    - **possible values:** \n      - `fast` \n\n    - **env:** `MODE`\n    - **value delimiter:** `;`\n"
    );
}

#[test]
fn argument_is_appended_to_what_the_writer_holds() {
    let mut out = String::from("before\n");
    Settings::new().fmt_arg(&flag("quiet"), &mut out);
    assert_eq!(out, "before\n - `--quiet`\n");
}

#[test]
fn argument_rendering_ignores_the_settings() {
    let mut arg = option("color");
    arg.help = Some("When to use colors".to_string());
    let mut plain = String::new();
    Settings::new()
        .with_prompt(None)
        .with_monospace_headings(false)
        .with_highlighted_subcommand_names(false)
        .fmt_arg(&arg, &mut plain);
    assert_eq!(plain, render(&arg));
}
