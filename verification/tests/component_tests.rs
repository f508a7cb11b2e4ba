use termtask::config::AppConfig;
use termtask::config::ColorTheme;
use termtask::config::DateFormat;
use termtask::config::UISettings;
use termtask::confirmation::ConfirmationAction;
use termtask::confirmation::ConfirmationModal;
use termtask::help_modal::HelpModal;
use termtask::multi_select::MultiSelect;
use termtask::normal_input::NormalInput;
use termtask::preview_modal::PreviewModal;
use termtask::settings_modal::SettingsModal;
use termtask::toast::Toast;
use termtask::toast::ToastLevel;
use termtask::toast::ToastManager;
use termtask::todo::TodoList;

#[test]
fn color_theme_next_cycles_through_all() {
    let mut t = ColorTheme::CatppuccinMocha;
    let all = ColorTheme::all();
    assert_eq!(all.len(), 8);
    for expected in all.iter().skip(1) {
        t = t.next();
        assert_eq!(&t, expected);
    }
    assert_eq!(t.next(), ColorTheme::CatppuccinMocha);
}

#[test]
fn theme_and_format_names() {
    assert_eq!(ColorTheme::Nord.name(), "Nord");
    assert_eq!(DateFormat::Iso8601.name(), "ISO 8601 (2024-12-15 14:33)");
    assert_eq!(DateFormat::all().len(), 6);
}

#[test]
fn config_defaults() {
    let c = AppConfig::default();
    assert_eq!(c.theme, ColorTheme::CatppuccinMocha);
    let u = UISettings::default();
    assert_eq!(u.split_ratio, 50);
    assert!(!u.vim_mode);
    assert!(!u.compact_mode);
    assert_eq!(u.date_format, DateFormat::AmPm12Hour);
}

#[test]
fn confirmation_titles_and_messages() {
    let complete = ConfirmationAction::Complete("x".to_string());
    assert_eq!(complete.title(), "Complete Todo");
    assert_eq!(complete.message(), "Complete todo \"x\"?");
    let delete = ConfirmationAction::Delete("y".to_string());
    assert_eq!(delete.title(), "Delete Todo");
    assert_eq!(delete.message(), "Delete todo \"y\"?");
    let discard = ConfirmationAction::DiscardUnsavedChanges;
    assert_eq!(discard.title(), "Discard Changes");
    assert_eq!(discard.message(), "You have unsaved changes. Discard them?");
}

#[test]
fn confirmation_modal_selection() {
    let mut m = ConfirmationModal::new();
    assert!(!m.active);
    m.open(ConfirmationAction::DiscardUnsavedChanges);
    assert!(m.active);
    assert!(m.is_yes_selected());
    m.toggle_selection();
    assert!(!m.is_yes_selected());
    m.close();
    assert!(!m.active);
    assert!(m.action.is_none());
}

#[test]
fn help_modal_scrolling_and_bindings() {
    let mut h = HelpModal::new();
    h.open();
    h.scroll_down();
    h.scroll_down();
    h.scroll_up();
    assert_eq!(h.scroll_offset, 1);
    h.close();
    assert_eq!(h.scroll_offset, 0);
    let plain = HelpModal::get_key_bindings(false);
    assert!(plain.iter().all(|b| !b.vim_only));
    assert!(plain.iter().any(|b| b.normal_only));
    let vim = HelpModal::get_key_bindings(true);
    assert!(vim.iter().all(|b| !b.normal_only));
    assert!(vim.iter().any(|b| b.key == "dd"));
}

#[test]
fn preview_modal_holds_entry() {
    let mut p = PreviewModal::new();
    p.open("title", Some("body"));
    assert!(p.active);
    assert_eq!(p.title, "title");
    assert_eq!(p.description, "body");
    p.scroll_down();
    p.close();
    assert_eq!(p.scroll_offset, 0);
    p.open("other", None);
    assert_eq!(p.description, "");
}

#[test]
fn multi_select_highlights_current_value() {
    let m: MultiSelect<ColorTheme> = MultiSelect::new("Select Theme".to_string(), ColorTheme::Nord);
    assert_eq!(m.selected_index, 4);
}

#[test]
fn multi_select_navigation_wraps() {
    let mut m: MultiSelect<DateFormat> =
        MultiSelect::new("Select Date Format".to_string(), DateFormat::AmPm12Hour);
    m.open();
    assert_eq!(m.selected_index, 0);
    m.previous_item();
    assert_eq!(m.selected_index, 5);
    m.next_item();
    assert_eq!(m.selected_index, 0);
    m.next_item();
    let chosen = m.select_current();
    assert_eq!(chosen, DateFormat::AmPm12HourWithYear);
    assert!(!m.active);
}

#[test]
fn settings_modal_round_trip() {
    let mut s = SettingsModal::new();
    s.open(&ColorTheme::Dracula, &DateFormat::Hour24, true, false);
    assert_eq!(s.get_theme(), ColorTheme::Dracula);
    assert_eq!(s.get_date_format(), DateFormat::Hour24);
    assert!(s.get_vim_mode());
    assert!(!s.get_compact_mode());
    // fourth entry is compact mode; toggle it in place
    s.next_item();
    s.next_item();
    s.next_item();
    s.toggle_selected();
    assert!(s.get_compact_mode());
    // first entry opens the theme selector
    s.next_item();
    assert_eq!(s.selected_index, 0);
    s.toggle_selected();
    assert!(s.multi_select_active);
}

#[test]
fn toast_expiry_is_exact() {
    let mut t = Toast::new("m".to_string(), ToastLevel::Info);
    t.created_at_ms = 1000;
    t.duration_ms = 3000;
    assert!(!t.is_expired_at(999));
    assert!(!t.is_expired_at(3999));
    assert!(t.is_expired_at(4000));
    assert!(t.is_expired_at(10000));
}

#[test]
fn toast_manager_assigns_ids_and_expires() {
    let mut m = ToastManager::new();
    m.success("one".to_string());
    m.error("two".to_string());
    assert_eq!(m.toasts.len(), 2);
    assert_eq!(m.toasts[0].id, 1);
    assert_eq!(m.toasts[1].id, 2);
    assert_eq!(m.toasts[1].level, ToastLevel::Error);
    assert!(m.has_active_toasts());
    m.toasts[0].created_at_ms = 0;
    m.toasts[0].duration_ms = 1;
    m.toasts[1].created_at_ms = u64::MAX;
    m.remove_expired_at(5000);
    assert_eq!(m.toasts.len(), 1);
    assert_eq!(m.toasts[0].message, "two");
}

#[test]
fn todo_list_add_remove_toggle() {
    let mut l = TodoList::new();
    assert_eq!(l.version, 1);
    l.add_todo("a".to_string(), None);
    l.add_todo("b".to_string(), Some("d".to_string()));
    assert_eq!(l.items.len(), 2);
    let id_a = l.items[0].id;
    let id_b = l.items[1].id;
    assert!(l.toggle_todo(id_b));
    assert!(l.items[1].completed);
    assert_eq!(l.get_active_todos(), vec![0]);
    assert_eq!(l.get_completed_todos(), vec![1]);
    assert!(l.toggle_todo(id_b));
    assert!(!l.items[1].completed);
    assert!(l.items[1].completed_at_ms.is_none());
    assert!(l.remove_todo(id_a));
    assert_eq!(l.items.len(), 1);
    assert!(!l.remove_todo(id_a));
    assert!(l.get_todo_by_id(id_b).is_some());
    assert!(l.get_todo_by_id(id_a).is_none());
}

#[test]
fn todo_update_and_expansion() {
    let mut l = TodoList::new();
    l.add_todo("t".to_string(), None);
    let id = l.items[0].id;
    assert!(l.update_todo(id, "t2".to_string(), Some("d2".to_string())));
    assert_eq!(l.items[0].title, "t2");
    assert_eq!(l.items[0].description, Some("d2".to_string()));
    assert!(l.toggle_expanded(id));
    assert!(l.items[0].expanded);
    assert!(l.set_expanded(id, false));
    assert!(!l.items[0].expanded);
    assert!(l.items[0].has_description());
    l.update_todo(id, "t2".to_string(), Some("  ".to_string()));
    assert!(!l.items[0].has_description());
}

#[test]
fn normal_input_field_switching_and_editing() {
    let mut n = NormalInput::new();
    n.open();
    assert!(n.active);
    n.handle_char('h');
    n.handle_char('i');
    assert_eq!(n.get_title(), "hi");
    n.move_cursor_left();
    n.handle_char('X');
    assert_eq!(n.get_title(), "hXi");
    n.handle_backspace();
    assert_eq!(n.get_title(), "hi");
    assert!(!n.handle_enter());
    n.handle_char('d');
    n.handle_char('1');
    assert!(!n.handle_enter());
    n.handle_char('d');
    n.handle_char('2');
    assert_eq!(n.get_description(), Some("d1\nd2".to_string()));
}

#[test]
fn normal_input_description_round_trip() {
    let mut n = NormalInput::new();
    n.open_with_data("T", Some("line1\nline2"));
    assert_eq!(n.get_title(), "T");
    assert_eq!(n.get_description(), Some("line1\nline2".to_string()));
    let mut e = NormalInput::new();
    e.open_with_data("T", Some("   "));
    assert_eq!(e.get_description(), None);
}

#[test]
fn normal_input_trims_description_edges() {
    let mut n = NormalInput::new();
    n.open_with_data("T", Some("  padded  "));
    assert_eq!(n.get_description(), Some("padded".to_string()));
}
