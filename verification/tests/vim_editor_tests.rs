use termtask::events::Key;
use termtask::vim_input::InputMode;
use termtask::vim_input::ParsedCommand;
use termtask::vim_input::VimCommand;
use termtask::vim_input::VimInput;
use termtask::vim_input::VimMode;
use termtask::vim_input::parse_command;

fn chars(s: &str) -> Vec<char> {
    s.chars().collect()
}

fn buffer_lines(v: &VimInput) -> Vec<String> {
    let mut out = Vec::new();
    let mut i = 0;
    while i < v.buffer.line_count() {
        out.push(v.buffer.line_at(i).into_iter().collect::<String>());
        i += 1;
    }
    out
}

/// An editor focused on the description, in Normal mode, over the text.
fn normal_mode_editor(text: &str) -> VimInput {
    let mut v = VimInput::new();
    v.open_with_data("T", Some(text));
    v.switch_to_description();
    assert_eq!(v.handle_key_event(Key::Esc), None);
    assert_eq!(v.vim_mode, VimMode::Normal);
    v
}

#[test]
fn dd_then_p_restores_content_and_count() {
    let mut v = normal_mode_editor("one\ntwo\nthree");
    v.handle_key_event(Key::Char('j'));
    assert_eq!(v.buffer.cursor_line(), 1);
    v.handle_key_event(Key::Char('d'));
    v.handle_key_event(Key::Char('d'));
    assert_eq!(buffer_lines(&v), vec!["one", "three"]);
    v.handle_key_event(Key::Char('p'));
    let mut lines = buffer_lines(&v);
    assert_eq!(lines.len(), 3);
    assert_eq!(lines[v.buffer.cursor_line()], "two");
    assert_eq!(v.buffer.cursor_col(), 0);
    lines.sort();
    assert_eq!(lines, vec!["one", "three", "two"]);
}

#[test]
fn yy_then_p_duplicates_line_below() {
    let mut v = normal_mode_editor("one\ntwo");
    v.handle_key_event(Key::Char('y'));
    v.handle_key_event(Key::Char('y'));
    assert_eq!(buffer_lines(&v), vec!["one", "two"]);
    v.handle_key_event(Key::Char('p'));
    assert_eq!(buffer_lines(&v), vec!["one", "one", "two"]);
    assert_eq!(v.buffer.cursor_line(), 1);
    assert_eq!(v.buffer.cursor_col(), 0);
}

#[test]
fn gg_then_upper_g_moves_first_then_last() {
    let mut v = normal_mode_editor("one\ntwo\nthree");
    v.handle_key_event(Key::Char('j'));
    v.handle_key_event(Key::Char('g'));
    v.handle_key_event(Key::Char('g'));
    assert_eq!(v.buffer.cursor_line(), 0);
    v.handle_key_event(Key::Char('G'));
    assert_eq!(v.buffer.cursor_line(), 2);
}

#[test]
fn gg_and_upper_g_are_noops_on_single_line() {
    let mut v = normal_mode_editor("only");
    v.handle_key_event(Key::Char('l'));
    let col = v.buffer.cursor_col();
    v.handle_key_event(Key::Char('g'));
    v.handle_key_event(Key::Char('g'));
    assert_eq!((v.buffer.cursor_line(), v.buffer.cursor_col()), (0, col));
    v.handle_key_event(Key::Char('G'));
    assert_eq!((v.buffer.cursor_line(), v.buffer.cursor_col()), (0, col));
}

#[test]
fn pending_prefix_cancels_silently() {
    let mut v = normal_mode_editor("one\ntwo");
    v.handle_key_event(Key::Char('d'));
    v.handle_key_event(Key::Char('x'));
    assert_eq!(buffer_lines(&v), vec!["one", "two"]);
    assert_eq!(v.register, None);
    // the cancelled prefix must not act on the next key either
    v.handle_key_event(Key::Char('d'));
    v.handle_key_event(Key::Char('j'));
    assert_eq!(buffer_lines(&v), vec!["one", "two"]);
}

#[test]
fn parse_command_vocabulary_is_exact() {
    assert_eq!(parse_command(&chars("w")), ParsedCommand::Save);
    assert_eq!(parse_command(&chars("write")), ParsedCommand::Save);
    assert_eq!(parse_command(&chars("x")), ParsedCommand::SaveAndClose);
    assert_eq!(parse_command(&chars("wq")), ParsedCommand::SaveAndClose);
    assert_eq!(parse_command(&chars("q")), ParsedCommand::Quit);
    assert_eq!(parse_command(&chars("quit")), ParsedCommand::Quit);
    assert_eq!(parse_command(&chars(" w ")), ParsedCommand::Save);
    assert_eq!(parse_command(&chars("")), ParsedCommand::Empty);
    assert_eq!(parse_command(&chars("   ")), ParsedCommand::Empty);
    assert_eq!(parse_command(&chars("wqa")), ParsedCommand::Unrecognized);
    assert_eq!(parse_command(&chars("W")), ParsedCommand::Unrecognized);
}

#[test]
fn command_line_accumulates_and_emits() {
    let mut v = normal_mode_editor("text");
    v.handle_key_event(Key::Char(':'));
    assert_eq!(v.vim_mode, VimMode::Command);
    v.handle_key_event(Key::Char('w'));
    v.handle_key_event(Key::Char('q'));
    assert_eq!(v.get_command_buffer(), "wq");
    v.handle_key_event(Key::Backspace);
    assert_eq!(v.get_command_buffer(), "w");
    let out = v.handle_key_event(Key::Enter);
    assert_eq!(out, Some(VimCommand::Save));
    assert_eq!(v.vim_mode, VimMode::Normal);
    assert_eq!(v.get_command_buffer(), "");
}

#[test]
fn command_backspace_on_empty_is_noop() {
    let mut v = normal_mode_editor("text");
    v.handle_key_event(Key::Char(':'));
    v.handle_key_event(Key::Backspace);
    assert_eq!(v.vim_mode, VimMode::Command);
    assert_eq!(v.get_command_buffer(), "");
}

#[test]
fn command_escape_discards() {
    let mut v = normal_mode_editor("text");
    v.handle_key_event(Key::Char(':'));
    v.handle_key_event(Key::Char('q'));
    v.handle_key_event(Key::Esc);
    assert_eq!(v.vim_mode, VimMode::Normal);
    assert_eq!(v.get_command_buffer(), "");
    assert_eq!(v.get_unknown_command(), None);
}

#[test]
fn unrecognized_command_is_reported_and_state_kept() {
    let mut v = normal_mode_editor("keep\nme");
    v.handle_key_event(Key::Char(':'));
    for c in "foo".chars() {
        v.handle_key_event(Key::Char(c));
    }
    let out = v.handle_key_event(Key::Enter);
    assert_eq!(out, None);
    assert_eq!(v.vim_mode, VimMode::Normal);
    assert_eq!(v.get_unknown_command(), Some("foo".to_string()));
    assert_eq!(buffer_lines(&v), vec!["keep", "me"]);
}

#[test]
fn empty_command_is_a_noop() {
    let mut v = normal_mode_editor("text");
    v.handle_key_event(Key::Char(':'));
    let out = v.handle_key_event(Key::Enter);
    assert_eq!(out, None);
    assert_eq!(v.vim_mode, VimMode::Normal);
    assert_eq!(v.get_unknown_command(), None);
}

#[test]
fn escape_steps_insert_back_to_normal_only() {
    let mut v = VimInput::new();
    v.open_with_data("T", Some("body"));
    v.switch_to_description();
    assert_eq!(v.vim_mode, VimMode::Insert);
    v.handle_key_event(Key::Esc);
    assert_eq!(v.vim_mode, VimMode::Normal);
    assert!(v.active);
    // Escape in Normal changes nothing inside the editor.
    v.handle_key_event(Key::Esc);
    assert_eq!(v.vim_mode, VimMode::Normal);
    assert!(v.active);
}

#[test]
fn insert_and_append_enter_insert_mode() {
    let mut v = normal_mode_editor("ab");
    v.handle_key_event(Key::Char('i'));
    assert_eq!(v.vim_mode, VimMode::Insert);
    assert_eq!(v.buffer.cursor_col(), 0);
    v.handle_key_event(Key::Esc);
    v.handle_key_event(Key::Char('a'));
    assert_eq!(v.vim_mode, VimMode::Insert);
    assert_eq!(v.buffer.cursor_col(), 1);
}

#[test]
fn visual_modes_enter_and_escape() {
    let mut v = normal_mode_editor("ab\ncd");
    v.handle_key_event(Key::Char('v'));
    assert_eq!(v.vim_mode, VimMode::Visual);
    assert_eq!(v.get_vim_mode_display(), "VISUAL");
    v.handle_key_event(Key::Char('j'));
    assert_eq!(v.buffer.cursor_line(), 1);
    assert_eq!(v.visual_anchor_line, 0);
    v.handle_key_event(Key::Esc);
    assert_eq!(v.vim_mode, VimMode::Normal);
    v.handle_key_event(Key::Char('V'));
    assert_eq!(v.vim_mode, VimMode::VisualLine);
    assert_eq!(v.get_vim_mode_display(), "V-LINE");
    v.handle_key_event(Key::Esc);
    assert_eq!(v.vim_mode, VimMode::Normal);
}

#[test]
fn line_start_and_end_motions() {
    let mut v = normal_mode_editor("abcdef");
    v.handle_key_event(Key::Char('$'));
    assert_eq!(v.buffer.cursor_col(), 6);
    v.handle_key_event(Key::Char('0'));
    assert_eq!(v.buffer.cursor_col(), 0);
}

#[test]
fn title_field_is_flat_insert() {
    let mut v = VimInput::new();
    v.open();
    assert_eq!(v.mode, InputMode::Title);
    v.handle_key_event(Key::Char('d'));
    v.handle_key_event(Key::Char('d'));
    assert_eq!(v.get_title(), "dd");
    v.handle_key_event(Key::Backspace);
    assert_eq!(v.get_title(), "d");
    v.handle_key_event(Key::Enter);
    assert_eq!(v.mode, InputMode::Description);
}

#[test]
fn open_with_data_places_title_cursor_at_end() {
    let mut v = VimInput::new();
    v.open_with_data("abc", None);
    assert_eq!(v.cursor_position, 3);
    assert!(v.is_editing);
    assert!(v.active);
}

#[test]
fn get_description_joins_and_trims() {
    let mut v = VimInput::new();
    v.open_with_data("T", Some("  line1\nline2  "));
    assert_eq!(v.get_description(), Some("line1\nline2".to_string()));
    let mut w = VimInput::new();
    w.open_with_data("T", Some("   \n  "));
    assert_eq!(w.get_description(), None);
}

#[test]
fn paste_without_register_is_noop() {
    let mut v = normal_mode_editor("one");
    v.handle_key_event(Key::Char('p'));
    assert_eq!(buffer_lines(&v), vec!["one"]);
}

#[test]
fn mode_display_labels() {
    let mut v = normal_mode_editor("x");
    assert_eq!(v.get_vim_mode_display(), "NORMAL");
    v.handle_key_event(Key::Char('i'));
    assert_eq!(v.get_vim_mode_display(), "INSERT");
    v.handle_key_event(Key::Esc);
    v.handle_key_event(Key::Char(':'));
    assert_eq!(v.get_vim_mode_display(), "COMMAND");
    v.switch_to_title();
    assert_eq!(v.get_vim_mode_display(), "INSERT");
}
