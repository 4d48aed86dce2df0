use clapdown::{to_markdown_string, Action, Argument, Command, Settings, Subcommands, ValueRange};

fn positional(id: &str) -> Argument {
    Argument {
        id: id.to_string(),
        short: None,
        long: None,
        help: None,
        long_help: None,
        num_args: Some(ValueRange { min: 1, max: 1 }),
        positional: true,
        required: true,
        require_equals: false,
        action: Action::Store,
        value_names: None,
        default_values: vec![],
        possible_values: vec![],
        env: None,
        env_supported: true,
        value_delimiter: None,
        help_heading: None,
    }
}

fn flag(id: &str) -> Argument {
    let mut arg = positional(id);
    arg.positional = false;
    arg.required = false;
    arg.long = Some(id.to_string());
    arg.num_args = Some(ValueRange { min: 0, max: 0 });
    arg.action = Action::Toggle;
    arg
}

fn under(heading: &str, mut arg: Argument) -> Argument {
    arg.help_heading = Some(heading.to_string());
    arg
}

fn command(name: &str) -> Command {
    Command {
        name: name.to_string(),
        about: None,
        long_about: None,
        usage: String::new(),
        args: vec![],
        subcommands: vec![],
    }
}

fn described(name: &str, about: &str) -> Command {
    let mut cmd = command(name);
    cmd.about = Some(about.to_string());
    cmd
}

/// `git` with the one subcommand `push`.
fn git() -> Command {
    let mut root = command("git");
    root.subcommands.push(described("push", "pushes things"));
    root
}

/// The lines of `text` that are headings.
fn headings(text: &str) -> Vec<&str> {
    text.lines().filter(|l| l.starts_with('#')).collect()
}

#[test]
fn clone_with_a_required_positional_argument() {
    let mut cmd = command("clone");
    cmd.args.push(positional("remote"));
    assert_eq!(
        to_markdown_string(&cmd),
        "\n# `$ `**`clone`**\n\n\n## arguments\n\n - `<REMOTE>`\n\n"
    );
}

#[test]
fn two_levels_flattened() {
    let text = Settings::new().with_subcommand_mode(Subcommands::Flatten).command_to_string(&git());
    assert_eq!(
        text,
        "\n# `$ `**`git`**\n\n## subcommands\n\n - **[`push`](#-git-push)**: pushes things\n\n## `$ git `**`push`**\n\npushes things\n\n"
    );
}

#[test]
fn two_levels_unlinked() {
    let text =
        Settings::new().with_subcommand_mode(Subcommands::Unlinked).command_to_string(&git());
    assert_eq!(text, "\n# `$ `**`git`**\n\n## subcommands\n\n - **`push`**: pushes things\n");
    assert!(!text.contains('['));
    assert!(!text.contains("]("));
}

#[test]
fn two_levels_linked() {
    let text = Settings::new().with_subcommand_mode(Subcommands::Linked).command_to_string(&git());
    assert_eq!(
        text,
        "\n# `$ `**`git`**\n\n## subcommands\n\n - **[`push`](git/push.md)**: pushes things\n"
    );
}

#[test]
fn default_mode_is_flatten() {
    assert_eq!(
        to_markdown_string(&git()),
        Settings::new().with_subcommand_mode(Subcommands::Flatten).command_to_string(&git())
    );
    assert_eq!(to_markdown_string(&git()), Settings::default().command_to_string(&git()));
    assert_eq!(Subcommands::default(), Subcommands::Flatten);
}

#[test]
fn subcommand_without_description() {
    let mut root = command("git");
    root.subcommands.push(command("stash"));
    let text =
        Settings::new().with_subcommand_mode(Subcommands::Unlinked).command_to_string(&root);
    assert_eq!(text, "\n# `$ `**`git`**\n\n## subcommands\n\n - **`stash`**\n");
}

#[test]
fn anchors_join_the_names_above_with_hyphens() {
    let mut stash = command("stash");
    stash.subcommands.push(command("pop"));
    let mut root = command("git");
    root.subcommands.push(stash);
    let text = to_markdown_string(&root);
    assert_eq!(
        text,
        "\n# `$ `**`git`**\n\n## subcommands\n\n - **[`stash`](#-git-stash)**\n\n## `$ git `**`stash`**\n\n### subcommands\n\n - **[`pop`](#git--stash-pop)**\n\n### `$ git stash `**`pop`**\n\n"
    );
}

#[test]
fn heading_level_grows_with_depth() {
    let mut pop = command("pop");
    pop.args.push(flag("index"));
    let mut stash = command("stash");
    stash.subcommands.push(pop);
    stash.args.push(flag("all"));
    let mut root = command("git");
    root.subcommands.push(stash);
    root.subcommands.push(command("push"));
    let text = to_markdown_string(&root);
    assert_eq!(
        headings(&text),
        vec![
            "# `$ `**`git`**",
            "## subcommands",
            "## `$ git `**`stash`**",
            "### subcommands",
            "### options",
            "### `$ git stash `**`pop`**",
            "#### options",
            "## `$ git `**`push`**",
        ]
    );
}

#[test]
fn help_subcommand_is_left_out_in_every_mode() {
    let mut help = described("help", "Print this message");
    help.subcommands.push(command("push"));
    help.args.push(positional("topic"));
    let mut with_help = git();
    with_help.subcommands.insert(0, help);
    for mode in [Subcommands::Flatten, Subcommands::Linked, Subcommands::Unlinked] {
        let settings = Settings::new().with_subcommand_mode(mode);
        let text = settings.command_to_string(&with_help);
        assert_eq!(text, settings.command_to_string(&git()));
        assert!(!text.contains("help"));
        assert!(!text.contains("Print this message"));
        assert!(!text.contains("TOPIC"));
    }
}

#[test]
fn help_as_the_only_subcommand() {
    let mut root = command("tool");
    root.subcommands.push(described("help", "Print this message"));
    assert_eq!(to_markdown_string(&root), "\n# `$ `**`tool`**\n\n## subcommands\n\n");
}

#[test]
fn groups_in_first_seen_order() {
    let mut cmd = command("run");
    cmd.args.push(under("arguments", positional("first")));
    cmd.args.push(under("custom", flag("second")));
    cmd.args.push(under("arguments", positional("third")));
    let text = to_markdown_string(&cmd);
    assert_eq!(headings(&text), vec!["# `$ `**`run`**", "## arguments", "## custom"]);
    assert_eq!(
        text,
        "\n# `$ `**`run`**\n\n\n## arguments\n\n - `<FIRST>`\n - `<THIRD>`\n\n\n## custom\n\n - `--second`\n\n"
    );
}

#[test]
fn groups_without_headings_of_their_own() {
    let mut cmd = command("run");
    cmd.args.push(flag("quiet"));
    cmd.args.push(positional("file"));
    cmd.args.push(under("options", flag("force")));
    cmd.args.push(under("advanced", flag("raw")));
    cmd.args.push(flag("verbose"));
    let text = to_markdown_string(&cmd);
    assert_eq!(
        text,
        "\n# `$ `**`run`**\n\n\n## options\n\n - `--quiet`\n - `--force`\n - `--verbose`\n\n\n## arguments\n\n - `<FILE>`\n\n\n## advanced\n\n - `--raw`\n\n"
    );
}

#[test]
fn long_description_is_preferred() {
    let mut cmd = described("tool", "Short");
    assert_eq!(to_markdown_string(&cmd), "\n# `$ `**`tool`**\n\nShort\n\n");
    cmd.long_about = Some("Long\ndescription".to_string());
    assert_eq!(to_markdown_string(&cmd), "\n# `$ `**`tool`**\n\nLong\ndescription\n\n");
}

#[test]
fn list_of_subcommands_shows_the_short_description() {
    let mut push = described("push", "Short");
    push.long_about = Some("Long".to_string());
    let mut root = command("git");
    root.subcommands.push(push);
    let text =
        Settings::new().with_subcommand_mode(Subcommands::Unlinked).command_to_string(&root);
    assert_eq!(text, "\n# `$ `**`git`**\n\n## subcommands\n\n - **`push`**: Short\n");
}

#[test]
fn usage_in_a_fenced_block() {
    let mut cmd = described("tool", "Does things");
    cmd.usage = "Usage: tool [OPTIONS]".to_string();
    assert_eq!(
        to_markdown_string(&cmd),
        "\n# `$ `**`tool`**\n\nDoes things\n\n\n```text\nUsage: tool [OPTIONS]\n```\n\n"
    );
}

#[test]
fn sections_of_a_command_in_order() {
    let mut cmd = described("git", "A versioning tool");
    cmd.usage = "Usage: git <COMMAND>".to_string();
    cmd.args.push(flag("verbose"));
    cmd.subcommands.push(described("push", "pushes things"));
    let text =
        Settings::new().with_subcommand_mode(Subcommands::Linked).command_to_string(&cmd);
    assert_eq!(
        text,
        "\n# `$ `**`git`**\n\nA versioning tool\n\n\n```text\nUsage: git <COMMAND>\n```\n\n## subcommands\n\n - **[`push`](git/push.md)**: pushes things\n\n## options\n\n - `--verbose`\n\n"
    );
}

#[test]
fn heading_without_prompt() {
    let text = Settings::new().with_prompt(None).command_to_string(&git());
    assert_eq!(headings(&text), vec!["# ``**`git`**", "## subcommands", "## `git `**`push`**"]);
}

#[test]
fn heading_with_another_prompt() {
    let text = Settings::new().with_prompt(Some(">")).command_to_string(&git());
    assert_eq!(
        headings(&text),
        vec!["# `> `**`git`**", "## subcommands", "## `> git `**`push`**"]
    );
}

#[test]
fn heading_without_monospace() {
    let text = Settings::new().with_monospace_headings(false).command_to_string(&git());
    assert_eq!(headings(&text), vec!["# $ **git**", "## subcommands", "## $ git **push**"]);
}

#[test]
fn heading_without_emphasis() {
    let text = Settings::new().with_highlighted_subcommand_names(false).command_to_string(&git());
    assert_eq!(headings(&text), vec!["# `$ ``git`", "## subcommands", "## `$ git ``push`"]);
}

#[test]
fn plain_heading() {
    let text = Settings::new()
        .with_prompt(None)
        .with_monospace_headings(false)
        .with_highlighted_subcommand_names(false)
        .command_to_string(&git());
    assert_eq!(headings(&text), vec!["# git", "## subcommands", "## git push"]);
}

#[test]
fn rendering_twice_gives_the_same_text() {
    let mut cmd = git();
    cmd.args.push(flag("verbose"));
    cmd.args.push(positional("path"));
    for mode in [Subcommands::Flatten, Subcommands::Linked, Subcommands::Unlinked] {
        let settings = Settings::new().with_subcommand_mode(mode);
        assert_eq!(settings.command_to_string(&cmd), settings.command_to_string(&cmd));
        assert_eq!(settings.clone().command_to_string(&cmd), settings.command_to_string(&cmd));
    }
}

#[test]
fn document_is_appended_to_what_the_writer_holds() {
    let settings = Settings::new();
    let mut out = String::from("<!-- generated -->\n");
    settings.fmt_command(&git(), &mut out);
    assert_eq!(out, format!("<!-- generated -->\n{}", settings.command_to_string(&git())));
}

#[test]
fn settings_compare_by_content() {
    assert_eq!(Settings::new(), Settings::default());
    assert_eq!(Settings::new().with_prompt(Some("$")), Settings::new());
    assert_ne!(Settings::new().with_prompt(None), Settings::new());
    assert_ne!(Settings::new().with_monospace_headings(false), Settings::new());
    assert_ne!(Settings::new().with_highlighted_subcommand_names(false), Settings::new());
    assert_ne!(Settings::new().with_subcommand_mode(Subcommands::Linked), Settings::new());
    assert_eq!(
        Settings::new()
            .with_subcommand_mode(Subcommands::Unlinked)
            .with_subcommand_mode(Subcommands::Flatten),
        Settings::new()
    );
}

#[test]
fn only_the_exact_name_help_is_left_out() {
    let mut root = command("tool");
    for name in ["helper", "hel", "Help", "help ", "", "help"] {
        root.subcommands.push(command(name));
    }
    let text =
        Settings::new().with_subcommand_mode(Subcommands::Unlinked).command_to_string(&root);
    assert_eq!(
        text,
        "\n# `$ `**`tool`**\n\n## subcommands\n\n - **`helper`**\n - **`hel`**\n - **`Help`**\n - **`help `**\n - **``**\n"
    );
}

#[test]
fn spaces_in_the_names_above_become_hyphens_in_anchors() {
    let mut stash = command("stash");
    stash.subcommands.push(command("pop"));
    let mut root = command("my tool");
    root.subcommands.push(stash);
    let text = to_markdown_string(&root);
    assert!(text.contains(" - **[`stash`](#-my tool-stash)**\n"));
    assert!(text.contains(" - **[`pop`](#my-tool--stash-pop)**\n"));
    assert!(text.contains("\n### `$ my tool stash `**`pop`**\n"));
}

#[test]
fn empty_command() {
    assert_eq!(to_markdown_string(&command("")), "\n# `$ `**``**\n\n");
}
