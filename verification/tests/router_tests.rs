use termtask::app_core::AppCore;
use termtask::config::AppConfig;
use termtask::config::ColorTheme;
use termtask::events::Key;
use termtask::events::KeyPress;
use termtask::todo::TodoList;

fn key(code: Key) -> KeyPress {
    KeyPress { code, ctrl: false }
}

fn ctrl(code: Key) -> KeyPress {
    KeyPress { code, ctrl: true }
}

fn make_core(vim_mode: bool) -> AppCore {
    let mut config = AppConfig::default();
    config.ui.vim_mode = vim_mode;
    AppCore::new_with_config(config, TodoList::new())
}

fn type_str(c: &mut AppCore, s: &str) {
    for ch in s.chars() {
        c.handle_key(key(Key::Char(ch)));
    }
}

#[test]
fn q_quits_from_base_view() {
    let mut c = make_core(false);
    assert!(!c.should_quit);
    c.handle_key(key(Key::Char('q')));
    assert!(c.should_quit);
}

#[test]
fn ctrl_c_quits_from_base_view() {
    let mut c = make_core(false);
    c.handle_key(ctrl(Key::Char('c')));
    assert!(c.should_quit);
}

#[test]
fn plain_editor_full_entry_flow() {
    let mut c = make_core(false);
    c.handle_key(key(Key::Char('+')));
    assert!(c.add_todo_modal.active());
    type_str(&mut c, "Buy milk");
    c.handle_key(key(Key::Enter));
    type_str(&mut c, "two liters");
    let eff = c.handle_key(ctrl(Key::Enter));
    assert!(eff.save_todos);
    assert!(!c.add_todo_modal.active());
    assert_eq!(c.todos.items.len(), 1);
    assert_eq!(c.todos.items[0].title, "Buy milk");
    assert_eq!(c.todos.items[0].description, Some("two liters".to_string()));
}

#[test]
fn blank_title_saves_nothing() {
    let mut c = make_core(false);
    c.handle_key(key(Key::Char('+')));
    type_str(&mut c, "   ");
    let eff = c.handle_key(ctrl(Key::Enter));
    assert!(!eff.save_todos);
    assert_eq!(c.todos.items.len(), 0);
}

#[test]
fn save_command_keeps_editor_open() {
    let mut c = make_core(true);
    c.handle_key(key(Key::Char('+')));
    type_str(&mut c, "Task");
    c.handle_key(key(Key::Tab));
    c.handle_key(key(Key::Esc));
    type_str(&mut c, ":w");
    let eff = c.handle_key(key(Key::Enter));
    assert!(eff.save_todos);
    assert!(c.add_todo_modal.active());
    assert_eq!(c.todos.items.len(), 1);
    assert_eq!(c.todos.items[0].title, "Task");
}

#[test]
fn save_and_close_command_closes_editor() {
    let mut c = make_core(true);
    c.handle_key(key(Key::Char('+')));
    type_str(&mut c, "Task");
    c.handle_key(key(Key::Tab));
    c.handle_key(key(Key::Esc));
    type_str(&mut c, ":x");
    let eff = c.handle_key(key(Key::Enter));
    assert!(eff.save_todos);
    assert!(!c.add_todo_modal.active());
    assert_eq!(c.todos.items.len(), 1);
}

#[test]
fn quit_command_on_unmodified_editor_closes_directly() {
    let mut c = make_core(true);
    c.handle_key(key(Key::Char('+')));
    c.handle_key(key(Key::Tab));
    c.handle_key(key(Key::Esc));
    type_str(&mut c, ":q");
    c.handle_key(key(Key::Enter));
    assert!(!c.add_todo_modal.active());
    assert!(!c.confirmation_modal.active);
}

#[test]
fn quit_command_on_modified_editor_asks_first() {
    let mut c = make_core(true);
    c.handle_key(key(Key::Char('+')));
    type_str(&mut c, "edited");
    c.handle_key(key(Key::Tab));
    c.handle_key(key(Key::Esc));
    type_str(&mut c, ":q");
    c.handle_key(key(Key::Enter));
    assert!(c.add_todo_modal.active());
    assert!(c.confirmation_modal.active);
}

#[test]
fn escape_is_mode_dependent_in_vim_editor() {
    let mut c = make_core(true);
    c.handle_key(key(Key::Char('+')));
    c.handle_key(key(Key::Tab));
    // focus = description, Insert mode: Escape only steps back to Normal.
    c.handle_key(key(Key::Esc));
    assert!(c.add_todo_modal.active());
    // Normal mode now: Escape closes the overlay (no unsaved changes).
    c.handle_key(key(Key::Esc));
    assert!(!c.add_todo_modal.active());
}

#[test]
fn escape_with_unsaved_changes_asks_first() {
    let mut c = make_core(false);
    c.handle_key(key(Key::Char('+')));
    type_str(&mut c, "pending");
    c.handle_key(key(Key::Esc));
    assert!(c.add_todo_modal.active());
    assert!(c.confirmation_modal.active);
    // confirming discards
    c.handle_key(key(Key::Enter));
    assert!(!c.add_todo_modal.active());
    assert!(!c.confirmation_modal.active);
}

#[test]
fn unsaved_is_false_right_after_open_with_data() {
    let mut m = termtask::add_todo_modal::AddTodoModal::new_with_vim_mode(false);
    m.open_with_data("T", Some("D"));
    assert!(!m.has_unsaved_changes());
    let mut v = termtask::add_todo_modal::AddTodoModal::new_with_vim_mode(true);
    v.open_with_data("T", Some("D"));
    assert!(!v.has_unsaved_changes());
}

#[test]
fn one_typed_character_marks_unsaved() {
    // into the title
    let mut m = termtask::add_todo_modal::AddTodoModal::new_with_vim_mode(false);
    m.open_with_data("T", Some("D"));
    m.handle_char('x');
    assert!(m.has_unsaved_changes());
    // into the description
    let mut d = termtask::add_todo_modal::AddTodoModal::new_with_vim_mode(false);
    d.open_with_data("T", Some("D"));
    d.handle_enter();
    d.handle_char('x');
    assert!(d.has_unsaved_changes());
}

#[test]
fn whitespace_into_description_vanishes_under_trimming() {
    // The description comparison trims, so a lone space typed into it does
    // not count as an unsaved change.
    let mut d = termtask::add_todo_modal::AddTodoModal::new_with_vim_mode(false);
    d.open_with_data("T", Some("D"));
    d.handle_enter();
    d.handle_char(' ');
    assert!(!d.has_unsaved_changes());
}

#[test]
fn delete_flow_removes_selected_entry() {
    let mut todos = TodoList::new();
    todos.add_todo("first".to_string(), None);
    todos.add_todo("second".to_string(), None);
    let mut c = AppCore::new_with_config(AppConfig::default(), todos);
    c.handle_key(key(Key::Char('d')));
    assert!(c.confirmation_modal.active);
    let eff = c.handle_key(key(Key::Enter));
    assert!(eff.save_todos);
    assert!(!c.confirmation_modal.active);
    assert_eq!(c.todos.items.len(), 1);
    assert_eq!(c.todos.items[0].title, "second");
}

#[test]
fn confirmation_no_leaves_list_unchanged() {
    let mut todos = TodoList::new();
    todos.add_todo("keep".to_string(), None);
    let mut c = AppCore::new_with_config(AppConfig::default(), todos);
    c.handle_key(key(Key::Char('d')));
    c.handle_key(key(Key::Left));
    assert!(!c.confirmation_modal.is_yes_selected());
    let eff = c.handle_key(key(Key::Enter));
    assert!(!eff.save_todos);
    assert_eq!(c.todos.items.len(), 1);
}

#[test]
fn space_completes_selected_entry() {
    let mut todos = TodoList::new();
    todos.add_todo("task".to_string(), None);
    let mut c = AppCore::new_with_config(AppConfig::default(), todos);
    c.handle_key(key(Key::Char(' ')));
    assert!(c.confirmation_modal.active);
    let eff = c.handle_key(key(Key::Enter));
    assert!(eff.save_todos);
    assert!(c.todos.items[0].completed);
    assert!(c.todos.items[0].completed_at_ms.is_some());
}

#[test]
fn toggle_theme_advances_and_saves() {
    let mut c = make_core(false);
    assert_eq!(c.config.theme, ColorTheme::CatppuccinMocha);
    let eff = c.handle_key(key(Key::Char('t')));
    assert!(eff.save_config);
    assert_eq!(c.config.theme, ColorTheme::TokyoNight);
}

#[test]
fn settings_toggle_vim_mode_rebuilds_editor() {
    let mut c = make_core(false);
    c.handle_key(key(Key::Char('s')));
    assert!(c.settings.active);
    // move to the vim-mode entry (third) and toggle it
    c.handle_key(key(Key::Down));
    c.handle_key(key(Key::Down));
    let eff = c.handle_key(key(Key::Enter));
    assert!(eff.save_config);
    assert!(c.config.ui.vim_mode);
    c.handle_key(key(Key::Esc));
    c.handle_key(key(Key::Char('+')));
    assert!(matches!(
        c.add_todo_modal.input_handler,
        termtask::input_handler::InputHandler::Vim(_)
    ));
}

#[test]
fn help_overlay_claims_keys_first() {
    let mut c = make_core(false);
    c.handle_key(key(Key::Char('?')));
    assert!(c.help_modal.active);
    // 'q' scrolls nothing and must not quit while help is up
    c.handle_key(key(Key::Char('q')));
    assert!(!c.should_quit);
    c.handle_key(key(Key::Down));
    assert_eq!(c.help_modal.scroll_offset, 1);
    c.handle_key(key(Key::Esc));
    assert!(!c.help_modal.active);
}

#[test]
fn preview_opens_on_selected_entry() {
    let mut todos = TodoList::new();
    todos.add_todo("shown".to_string(), Some("body".to_string()));
    let mut c = AppCore::new_with_config(AppConfig::default(), todos);
    c.handle_key(key(Key::Char('p')));
    assert!(c.preview_modal.active);
    assert_eq!(c.preview_modal.title, "shown");
    assert_eq!(c.preview_modal.description, "body");
    c.handle_key(key(Key::Char('p')));
    assert!(!c.preview_modal.active);
}

#[test]
fn edit_flow_updates_entry() {
    let mut todos = TodoList::new();
    todos.add_todo("old".to_string(), Some("desc".to_string()));
    let mut c = AppCore::new_with_config(AppConfig::default(), todos);
    c.handle_key(key(Key::Char('r')));
    assert!(c.add_todo_modal.active());
    assert_eq!(c.add_todo_modal.get_title(), "old");
    type_str(&mut c, "er");
    let eff = c.handle_key(ctrl(Key::Char('s')));
    assert!(eff.save_todos);
    assert_eq!(c.todos.items.len(), 1);
    assert_eq!(c.todos.items[0].title, "older");
    assert_eq!(c.todos.items[0].description, Some("desc".to_string()));
}

#[test]
fn split_ratio_clamps_at_bounds() {
    let mut c = make_core(false);
    assert_eq!(c.config.ui.split_ratio, 50);
    for _ in 0..10 {
        c.handle_key(key(Key::Char('=')));
    }
    assert_eq!(c.config.ui.split_ratio, 90);
    for _ in 0..10 {
        c.handle_key(key(Key::Char('-')));
    }
    assert_eq!(c.config.ui.split_ratio, 10);
}

#[test]
fn panes_switch_and_zoom() {
    let mut c = make_core(false);
    assert!(c.active_pane);
    c.handle_key(key(Key::Tab));
    assert!(!c.active_pane);
    c.handle_key(key(Key::Char('f')));
    assert_eq!(c.zoomed_pane, Some(false));
    c.handle_key(key(Key::Char('h')));
    assert!(c.active_pane);
    assert_eq!(c.zoomed_pane, Some(true));
    c.handle_key(key(Key::Char('f')));
    assert_eq!(c.zoomed_pane, None);
}

#[test]
fn vim_prefix_z_commands_fold_in_base_view() {
    let mut todos = TodoList::new();
    todos.add_todo("t".to_string(), Some("d".to_string()));
    let mut config = AppConfig::default();
    config.ui.vim_mode = true;
    let mut c = AppCore::new_with_config(config, todos);
    c.handle_key(key(Key::Char('z')));
    assert_eq!(c.vim_prefix, Some('z'));
    c.handle_key(key(Key::Char('R')));
    assert_eq!(c.vim_prefix, None);
    assert!(c.active_list.expand_all);
    c.handle_key(key(Key::Char('z')));
    c.handle_key(key(Key::Char('M')));
    assert!(!c.active_list.expand_all);
    c.handle_key(key(Key::Char('z')));
    c.handle_key(key(Key::Char('o')));
    assert!(c.todos.items[0].expanded);
    c.handle_key(key(Key::Char('z')));
    c.handle_key(key(Key::Char('c')));
    assert!(!c.todos.items[0].expanded);
}

#[test]
fn selection_wraps_in_base_view() {
    let mut todos = TodoList::new();
    todos.add_todo("a".to_string(), None);
    todos.add_todo("b".to_string(), None);
    let mut c = AppCore::new_with_config(AppConfig::default(), todos);
    assert_eq!(c.active_list.selected, Some(0));
    c.handle_key(key(Key::Down));
    assert_eq!(c.active_list.selected, Some(1));
    c.handle_key(key(Key::Down));
    assert_eq!(c.active_list.selected, Some(0));
    c.handle_key(key(Key::Up));
    assert_eq!(c.active_list.selected, Some(1));
}

#[test]
fn tab_switches_fields_in_plain_editor() {
    let mut c = make_core(false);
    c.handle_key(key(Key::Char('+')));
    type_str(&mut c, "head");
    c.handle_key(key(Key::Tab));
    assert!(!c.add_todo_modal.is_in_title_mode());
    type_str(&mut c, "body");
    c.handle_key(key(Key::Tab));
    assert!(c.add_todo_modal.is_in_title_mode());
    let eff = c.handle_key(ctrl(Key::Enter));
    assert!(eff.save_todos);
    assert_eq!(c.todos.items[0].title, "head");
    assert_eq!(c.todos.items[0].description, Some("body".to_string()));
}

#[test]
fn command_mode_predicate_tracks_the_command_line() {
    let mut c = make_core(true);
    c.handle_key(key(Key::Char('+')));
    assert!(!c.add_todo_modal.input_handler.is_command_mode());
    c.handle_key(key(Key::Tab));
    c.handle_key(key(Key::Esc));
    c.handle_key(key(Key::Char(':')));
    assert!(c.add_todo_modal.input_handler.is_command_mode());
    c.handle_key(key(Key::Esc));
    assert!(!c.add_todo_modal.input_handler.is_command_mode());
}

#[test]
fn editing_keys_reach_the_plain_editor_through_the_router() {
    let mut c = make_core(false);
    c.handle_key(key(Key::Char('+')));
    type_str(&mut c, "abcd");
    c.handle_key(key(Key::Backspace));
    assert_eq!(c.add_todo_modal.get_title(), "abc");
    c.handle_key(key(Key::Left));
    c.handle_key(key(Key::Char('X')));
    assert_eq!(c.add_todo_modal.get_title(), "abXc");
    c.handle_key(key(Key::Enter));
    type_str(&mut c, "line1");
    c.handle_key(key(Key::Enter));
    type_str(&mut c, "line2");
    c.handle_key(key(Key::Up));
    c.handle_key(key(Key::Down));
    let eff = c.handle_key(ctrl(Key::Enter));
    assert!(eff.save_todos);
    assert_eq!(c.todos.items[0].description, Some("line1\nline2".to_string()));
}

#[test]
fn unrecognized_command_is_reported_through_the_facade() {
    let mut c = make_core(true);
    c.handle_key(key(Key::Char('+')));
    c.handle_key(key(Key::Tab));
    c.handle_key(key(Key::Esc));
    type_str(&mut c, ":nope");
    c.handle_key(key(Key::Enter));
    assert!(c.add_todo_modal.active());
    assert_eq!(
        c.add_todo_modal.input_handler.get_unknown_command(),
        Some("nope".to_string())
    );
}

#[test]
fn str_round_trip_through_editor_keeps_non_ascii_text() {
    let mut c = make_core(false);
    c.handle_key(key(Key::Char('+')));
    for ch in "caf\u{e9} \u{4eca}\u{65e5}".chars() {
        c.handle_key(key(Key::Char(ch)));
    }
    assert_eq!(c.add_todo_modal.get_title(), "caf\u{e9} \u{4eca}\u{65e5}");
    c.handle_key(key(Key::Backspace));
    assert_eq!(c.add_todo_modal.get_title(), "caf\u{e9} \u{4eca}");
}
