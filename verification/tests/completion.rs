use ignis::completer::IgnisCompleter;

#[test]
fn the_prefix_git_matches_exactly_git() {
    let c = IgnisCompleter::new();
    assert_eq!(c.complete_command("git"), vec!["git".to_string()]);
}

#[test]
fn an_empty_prefix_matches_every_command_in_order() {
    let c = IgnisCompleter::new();
    assert_eq!(
        c.complete_command(""),
        vec!["cd", "ls", "git", "cargo", "echo", "cat", "clear", "exit"]
            .into_iter()
            .map(String::from)
            .collect::<Vec<_>>()
    );
}

#[test]
fn a_shared_prefix_keeps_the_original_order() {
    let c = IgnisCompleter::new();
    assert_eq!(
        c.complete_command("c"),
        vec!["cd", "cargo", "cat", "clear"].into_iter().map(String::from).collect::<Vec<_>>()
    );
    assert_eq!(
        c.complete_command("ca"),
        vec!["cargo", "cat"].into_iter().map(String::from).collect::<Vec<_>>()
    );
}

#[test]
fn an_unknown_prefix_matches_nothing() {
    let c = IgnisCompleter::new();
    assert!(c.complete_command("vim").is_empty());
    assert!(c.complete_command("gitt").is_empty());
}
