use ignis::key::{Key, Modifiers};
use ignis::terminal::Terminal;
use ignis::theme::Rgba;

fn term() -> Terminal {
    Terminal::new(40, 10, 100, Rgba::from_rgb(220, 220, 220), Rgba::from_rgb(25, 25, 25))
}

fn type_key(t: &mut Terminal, key: Key) -> Option<String> {
    t.handle_key(key, Modifiers { shift: false }, true)
}

#[test]
fn a_new_terminal_greets_and_awaits_input() {
    let t = term();
    assert_eq!(t.input, "");
    assert_eq!(t.history, vec!["Welcome to Ignis Terminal".to_string()]);
    assert!(!t.show_completions);
}

#[test]
fn typed_characters_accumulate_in_the_input_line() {
    let mut t = term();
    assert_eq!(type_key(&mut t, Key::KeyH), None);
    assert_eq!(type_key(&mut t, Key::KeyI), None);
    assert_eq!(t.input, "hi");
    assert_eq!(t.grid.cursor_x(), 2);
}

#[test]
fn backspace_drops_the_last_typed_character() {
    let mut t = term();
    type_key(&mut t, Key::KeyA);
    type_key(&mut t, Key::KeyB);
    type_key(&mut t, Key::Backspace);
    assert_eq!(t.input, "a");
    type_key(&mut t, Key::Backspace);
    type_key(&mut t, Key::Backspace);
    assert_eq!(t.input, "");
}

#[test]
fn submitting_a_line_echoes_it_behind_a_prompt_and_clears_the_input() {
    let mut t = term();
    type_key(&mut t, Key::KeyG);
    type_key(&mut t, Key::KeyI);
    type_key(&mut t, Key::KeyT);
    let submitted = type_key(&mut t, Key::Enter);
    assert_eq!(submitted.as_deref(), Some("git"));
    assert_eq!(t.input, "");
    assert_eq!(t.history.last().map(String::as_str), Some("> git"));
    assert_eq!(t.history.len(), 2);
}

#[test]
fn submitting_trims_surrounding_whitespace() {
    let mut t = term();
    type_key(&mut t, Key::Space);
    type_key(&mut t, Key::KeyL);
    type_key(&mut t, Key::KeyS);
    type_key(&mut t, Key::Space);
    let submitted = type_key(&mut t, Key::Enter);
    assert_eq!(submitted.as_deref(), Some("ls"));
    assert_eq!(t.history.last().map(String::as_str), Some("> ls"));
}

#[test]
fn a_blank_submission_is_discarded_but_still_clears_state() {
    let mut t = term();
    type_key(&mut t, Key::Space);
    type_key(&mut t, Key::Space);
    t.request_completions();
    let submitted = type_key(&mut t, Key::Enter);
    assert_eq!(submitted, None);
    assert_eq!(t.input, "");
    assert_eq!(t.history.len(), 1);
    assert!(!t.show_completions);
}

#[test]
fn captured_output_is_appended_and_empty_output_is_not() {
    let mut t = term();
    t.record_output("hi\n");
    assert_eq!(t.history.last().map(String::as_str), Some("hi\n"));
    let before = t.history.len();
    t.record_output("");
    assert_eq!(t.history.len(), before);
}

#[test]
fn clearing_discards_the_visible_history() {
    let mut t = term();
    t.record_output("something");
    t.clear_history();
    assert!(t.history.is_empty());
}

#[test]
fn typing_g_i_t_with_completions_active_offers_exactly_git() {
    let mut t = term();
    type_key(&mut t, Key::KeyG);
    type_key(&mut t, Key::KeyI);
    type_key(&mut t, Key::KeyT);
    t.request_completions();
    assert_eq!(t.completions(), vec!["git".to_string()]);
}

#[test]
fn completions_stay_hidden_until_requested_and_need_input() {
    let mut t = term();
    type_key(&mut t, Key::KeyG);
    assert!(t.completions().is_empty());
    t.request_completions();
    assert_eq!(t.completions(), vec!["git".to_string()]);
    let mut empty = term();
    empty.request_completions();
    assert!(empty.completions().is_empty());
}

#[test]
fn choosing_a_completion_replaces_the_input_and_closes_the_popup() {
    let mut t = term();
    type_key(&mut t, Key::KeyC);
    type_key(&mut t, Key::KeyA);
    t.request_completions();
    assert_eq!(t.completions(), vec!["cargo".to_string(), "cat".to_string()]);
    t.choose_completion("cargo");
    assert_eq!(t.input, "cargo");
    assert!(!t.show_completions);
}

#[test]
fn shifted_characters_reach_the_input_line() {
    let mut t = term();
    t.handle_key(Key::KeyE, Modifiers { shift: true }, true);
    t.handle_key(Key::Key1, Modifiers { shift: true }, true);
    assert_eq!(t.input, "E!");
}

#[test]
fn key_releases_change_nothing() {
    let mut t = term();
    t.handle_key(Key::KeyA, Modifiers { shift: false }, false);
    assert_eq!(t.input, "");
    assert_eq!(t.history.len(), 1);
    assert_eq!((t.grid.cursor_x(), t.grid.cursor_y()), (0, 0));
}
