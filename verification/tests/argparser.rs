use codeydog::argparser::{argparse, Arguments};

fn tokens(words: &[&str]) -> Vec<String> {
    words.iter().map(|w| w.to_string()).collect()
}

fn strings(words: &[&str]) -> Vec<String> {
    tokens(words)
}

#[test]
fn argparse_of_nothing_is_empty() {
    let parsed = argparse(Vec::new());
    assert_eq!(
        parsed,
        Arguments {
            options: vec![],
            flags: vec![],
            command: String::new(),
            arguments: vec![],
        }
    );
}

#[test]
fn argparse_sorts_options_flags_command_and_arguments() {
    let parsed = argparse(tokens(&["--dog", "-f", "lawn", "dig"]));
    assert_eq!(parsed.options, strings(&["dog"]));
    assert_eq!(parsed.flags, strings(&["f"]));
    assert_eq!(parsed.command, "lawn");
    assert_eq!(parsed.arguments, strings(&["dig"]));
}

#[test]
fn argparse_expands_a_flag_group_letter_by_letter() {
    let parsed = argparse(tokens(&["-abc"]));
    assert_eq!(parsed.flags, strings(&["a", "b", "c"]));
    assert!(parsed.options.is_empty());
    assert_eq!(parsed.command, "");
    assert!(parsed.arguments.is_empty());
}

#[test]
fn argparse_keeps_flag_groups_in_order() {
    let parsed = argparse(tokens(&["-ab", "run", "-c", "-a"]));
    assert_eq!(parsed.flags, strings(&["a", "b", "c", "a"]));
    assert_eq!(parsed.command, "run");
}

#[test]
fn argparse_bare_dash_gives_no_flag() {
    let parsed = argparse(tokens(&["-"]));
    assert!(parsed.flags.is_empty());
    assert!(parsed.options.is_empty());
    assert_eq!(parsed.command, "");
    assert!(parsed.arguments.is_empty());
}

#[test]
fn argparse_double_dash_alone_gives_one_empty_option() {
    let parsed = argparse(tokens(&["--"]));
    assert_eq!(parsed.options, strings(&[""]));
    assert!(parsed.flags.is_empty());
    assert_eq!(parsed.command, "");
}

#[test]
fn argparse_strips_two_dashes_and_no_more() {
    let parsed = argparse(tokens(&["---x", "----"]));
    assert_eq!(parsed.options, strings(&["-x", "--"]));
    assert!(parsed.flags.is_empty());
}

#[test]
fn argparse_first_positional_is_the_command() {
    let parsed = argparse(tokens(&["install", "dwn", "extra"]));
    assert_eq!(parsed.command, "install");
    assert_eq!(parsed.arguments, strings(&["dwn", "extra"]));
}

#[test]
fn argparse_command_may_recur_among_arguments() {
    let parsed = argparse(tokens(&["help", "help"]));
    assert_eq!(parsed.command, "help");
    assert_eq!(parsed.arguments, strings(&["help"]));
}

#[test]
fn argparse_empty_token_is_positional() {
    let parsed = argparse(tokens(&["", "x"]));
    assert_eq!(parsed.command, "");
    assert_eq!(parsed.arguments, strings(&["x"]));
}

#[test]
fn argparse_dash_inside_a_token_does_not_count() {
    let parsed = argparse(tokens(&["task-rust", "a--b", "c-"]));
    assert_eq!(parsed.command, "task-rust");
    assert_eq!(parsed.arguments, strings(&["a--b", "c-"]));
    assert!(parsed.options.is_empty());
    assert!(parsed.flags.is_empty());
}

#[test]
fn argparse_option_keeps_what_follows_the_dashes() {
    let parsed = argparse(tokens(&["--name=value", "--a b"]));
    assert_eq!(parsed.options, strings(&["name=value", "a b"]));
}

#[test]
fn argparse_handles_characters_of_several_bytes() {
    let parsed = argparse(tokens(&["-äß", "--größe", "ñandú"]));
    assert_eq!(parsed.flags, strings(&["ä", "ß"]));
    assert_eq!(parsed.options, strings(&["größe"]));
    assert_eq!(parsed.command, "ñandú");
}

#[test]
fn argparse_accounts_for_every_token() {
    let words = ["--one", "-xy", "cmd", "-", "--", "arg", "", "-z", "--two"];
    let parsed = argparse(tokens(&words));
    let option_tokens = words.iter().filter(|w| w.starts_with("--")).count();
    let flag_letters: usize = words
        .iter()
        .filter(|w| w.starts_with('-') && !w.starts_with("--"))
        .map(|w| w.chars().count() - 1)
        .sum();
    let positional = words.iter().filter(|w| !w.starts_with('-')).count();
    assert_eq!(parsed.options.len(), option_tokens);
    assert_eq!(parsed.flags.len(), flag_letters);
    assert_eq!(1 + parsed.arguments.len(), positional);
    assert_eq!(parsed.options, strings(&["one", "", "two"]));
    assert_eq!(parsed.flags, strings(&["x", "y", "z"]));
    assert_eq!(parsed.command, "cmd");
    assert_eq!(parsed.arguments, strings(&["arg", ""]));
}

#[test]
fn argparse_flags_are_single_characters() {
    let parsed = argparse(tokens(&["-hello", "-w", "--long", "-é-"]));
    assert_eq!(parsed.flags.len(), 8);
    for flag in &parsed.flags {
        assert_eq!(flag.chars().count(), 1);
    }
}
