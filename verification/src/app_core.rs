//! The application core: every key-routing and state decision, free of any
//! input or output. A caller reads terminal input, decodes it to a
//! `KeyPress`, hands it in, and performs the returned `Effects` (persisting
//! the todos or the configuration); everything else happens here.
//!
//! Routing follows a fixed overlay priority: the confirmation dialog first,
//! then the settings, help and preview overlays, then the editor overlay,
//! and the base list view last; the first active layer claims the key.

use vstd::prelude::*;

use vstd::string::StringExecFns;

use crate::add_todo_modal::AddTodoModal;
use crate::config::AppConfig;
use crate::confirmation::ConfirmationAction;
use crate::confirmation::ConfirmationModal;
use crate::events::AppEvent;
use crate::events::Key;
use crate::events::KeyPress;
use crate::help_modal::HelpModal;
use crate::input_handler::InputHandler;
use crate::preview_modal::PreviewModal;
use crate::settings_modal::SettingsModal;
use crate::settings_modal::spec_compact_mode_of;
use crate::settings_modal::spec_date_format_of;
use crate::settings_modal::spec_theme_of;
use crate::settings_modal::spec_vim_mode_of;
use crate::text::spec_trim;
use crate::text::str_to_chars;
use crate::text::trim_chars;
use crate::toast::ToastManager;
use crate::todo::TodoItem;
use crate::todo::TodoList;
use crate::todo_list::TodoListComponent;
use crate::vim_input::VimCommand;
use crate::vim_input::spec_command_emit;
use crate::vim_input::spec_step;

verus! {

/// The application's base mode; the list view is the only one.
#[derive(Debug, Clone, Copy, PartialEq, Eq, Structural)]
pub enum AppMode {
    Normal,
}

/// Which layer claims the next key.
#[derive(Debug, Clone, Copy, PartialEq, Eq, Structural)]
pub enum Route {
    Confirmation,
    Settings,
    Help,
    Preview,
    Editor,
    Base,
}

/// What the caller must persist after a step.
#[derive(Debug, Clone, Copy, PartialEq, Eq, Structural)]
pub struct Effects {
    pub save_todos: bool,
    pub save_config: bool,
}

impl Effects {
    /// Nothing to persist.
    pub fn none() -> (r: Effects)
        ensures
            !r.save_todos,
            !r.save_config,
    {
        Effects { save_todos: false, save_config: false }
    }
}

/// The whole in-memory application state.
pub struct AppCore {
    pub todos: TodoList,
    pub config: AppConfig,
    pub mode: AppMode,
    pub active_list: TodoListComponent,
    pub completed_list: TodoListComponent,
    pub active_pane: bool,
    pub settings: SettingsModal,
    pub add_todo_modal: AddTodoModal,
    pub confirmation_modal: ConfirmationModal,
    pub help_modal: HelpModal,
    pub preview_modal: PreviewModal,
    pub toast_manager: ToastManager,
    pub should_quit: bool,
    pub editing_todo_id: Option<u128>,
    pub vim_prefix: Option<char>,
    pub zoomed_pane: Option<bool>,
}

/// The layer that claims the next key, by the fixed overlay priority.
pub open spec fn spec_route(s: AppCore) -> Route {
    if s.confirmation_modal.active {
        Route::Confirmation
    } else if s.settings.active {
        Route::Settings
    } else if s.help_modal.active {
        Route::Help
    } else if s.preview_modal.active {
        Route::Preview
    } else if s.add_todo_modal.input_handler.spec_active() {
        Route::Editor
    } else {
        Route::Base
    }
}

/// The event a key press maps to while the confirmation dialog is up.
pub open spec fn spec_convert_confirmation(key: KeyPress) -> Option<AppEvent> {
    match key.code {
        Key::Esc => Some(AppEvent::Escape),
        Key::Left => Some(AppEvent::Left),
        Key::Right => Some(AppEvent::Right),
        Key::Enter => Some(AppEvent::Enter),
        Key::Char(c) => if c == 'h' {
            Some(AppEvent::Left)
        } else if c == 'l' {
            Some(AppEvent::Right)
        } else {
            None
        },
        _ => None,
    }
}

/// The event a key press maps to while the editor overlay is up.
pub open spec fn spec_convert_editor(key: KeyPress) -> Option<AppEvent> {
    if key.ctrl {
        match key.code {
            Key::Enter => Some(AppEvent::CtrlEnter),
            Key::Char(c) => if c == 's' {
                Some(AppEvent::Save)
            } else {
                None
            },
            _ => None,
        }
    } else {
        match key.code {
            Key::Tab => Some(AppEvent::Tab),
            Key::BackTab => Some(AppEvent::BackTab),
            Key::Enter => Some(AppEvent::Enter),
            Key::Esc => Some(AppEvent::Escape),
            Key::Backspace => Some(AppEvent::Backspace),
            Key::Left => Some(AppEvent::Left),
            Key::Right => Some(AppEvent::Right),
            Key::Up => Some(AppEvent::Up),
            Key::Down => Some(AppEvent::Down),
            Key::Char(c) => Some(AppEvent::Char(c)),
            _ => None,
        }
    }
}

/// The event a key press maps to while the settings overlay is up.
pub open spec fn spec_convert_settings(key: KeyPress) -> Option<AppEvent> {
    match key.code {
        Key::Esc => Some(AppEvent::Escape),
        Key::Up => Some(AppEvent::Up),
        Key::Down => Some(AppEvent::Down),
        Key::Enter => Some(AppEvent::Enter),
        Key::Tab => Some(AppEvent::Tab),
        Key::BackTab => Some(AppEvent::BackTab),
        Key::Char(c) => if c == 'k' {
            Some(AppEvent::Up)
        } else if c == 'j' {
            Some(AppEvent::Down)
        } else {
            None
        },
        _ => None,
    }
}

/// The event a key press maps to while the help overlay is up.
pub open spec fn spec_convert_help(key: KeyPress) -> Option<AppEvent> {
    match key.code {
        Key::Esc => Some(AppEvent::Escape),
        Key::Up => Some(AppEvent::Up),
        Key::Down => Some(AppEvent::Down),
        Key::Char(c) => if c == '?' {
            Some(AppEvent::Escape)
        } else if c == 'k' {
            Some(AppEvent::Up)
        } else if c == 'j' {
            Some(AppEvent::Down)
        } else {
            None
        },
        _ => None,
    }
}

/// The event a key press maps to while the preview overlay is up.
pub open spec fn spec_convert_preview(key: KeyPress) -> Option<AppEvent> {
    match key.code {
        Key::Esc => Some(AppEvent::Escape),
        Key::Up => Some(AppEvent::Up),
        Key::Down => Some(AppEvent::Down),
        Key::Char(c) => if c == 'p' {
            Some(AppEvent::Escape)
        } else if c == 'k' {
            Some(AppEvent::Up)
        } else if c == 'j' {
            Some(AppEvent::Down)
        } else {
            None
        },
        _ => None,
    }
}

/// The event a key press maps to in the base list view. While a vim prefix
/// is pending, every plain character passes through so the prefixed command
/// can complete.
pub open spec fn spec_convert_base(key: KeyPress, vim_mode: bool, prefix_pending: bool) -> Option<
    AppEvent,
> {
    if key.ctrl {
        match key.code {
            Key::Char(c) => if c == 'c' {
                Some(AppEvent::Quit)
            } else {
                None
            },
            _ => None,
        }
    } else {
        match key.code {
            Key::Up => Some(AppEvent::Up),
            Key::Down => Some(AppEvent::Down),
            Key::Enter => Some(AppEvent::Enter),
            Key::Delete => Some(AppEvent::Delete),
            Key::Esc => Some(AppEvent::Escape),
            Key::Tab => Some(AppEvent::SwitchPane),
            Key::Left => Some(AppEvent::GoToLeftPane),
            Key::Right => Some(AppEvent::GoToRightPane),
            Key::Char(c) => if vim_mode && prefix_pending {
                Some(AppEvent::Char(c))
            } else if c == 'q' {
                Some(AppEvent::Quit)
            } else if c == 'k' {
                Some(AppEvent::Up)
            } else if c == 'j' {
                Some(AppEvent::Down)
            } else if c == ' ' {
                Some(AppEvent::Space)
            } else if c == 'd' {
                Some(AppEvent::Delete)
            } else if c == 't' {
                Some(AppEvent::ToggleTheme)
            } else if c == 's' {
                Some(AppEvent::OpenSettings)
            } else if c == '?' {
                Some(AppEvent::ShowHelp)
            } else if c == '+' {
                Some(AppEvent::AddTodo)
            } else if c == 'e' {
                Some(AppEvent::ToggleExpand)
            } else if c == 'E' {
                Some(AppEvent::ExpandAll)
            } else if c == 'C' {
                Some(AppEvent::CollapseAll)
            } else if c == 'r' {
                Some(AppEvent::EditTodo)
            } else if c == 'p' {
                Some(AppEvent::PreviewTodo)
            } else if c == '=' {
                Some(AppEvent::IncreaseSplit)
            } else if c == '-' {
                Some(AppEvent::DecreaseSplit)
            } else if c == 'h' {
                Some(AppEvent::GoToLeftPane)
            } else if c == 'l' {
                Some(AppEvent::GoToRightPane)
            } else if c == 'f' {
                Some(AppEvent::ToggleZoom)
            } else if c == 'z' && vim_mode {
                Some(AppEvent::Char('z'))
            } else if c == 'a' && vim_mode {
                Some(AppEvent::Char('a'))
            } else {
                None
            },
            _ => None,
        }
    }
}

/// The event a key press maps to, given which layer is active.
pub open spec fn spec_convert_key_event(s: AppCore, key: KeyPress) -> Option<AppEvent> {
    match spec_route(s) {
        Route::Confirmation => spec_convert_confirmation(key),
        Route::Editor => spec_convert_editor(key),
        Route::Settings => spec_convert_settings(key),
        Route::Help => spec_convert_help(key),
        Route::Preview => spec_convert_preview(key),
        Route::Base => spec_convert_base(key, s.config.ui.vim_mode, s.vim_prefix is Some),
    }
}


/// The editor key an overlay-routed editing event feeds to the editor.
pub open spec fn spec_editing_key(event: AppEvent) -> Option<Key> {
    match event {
        AppEvent::Char(c) => Some(Key::Char(c)),
        AppEvent::Backspace => Some(Key::Backspace),
        AppEvent::Enter => Some(Key::Enter),
        AppEvent::Left => Some(Key::Left),
        AppEvent::Right => Some(Key::Right),
        AppEvent::Up => Some(Key::Up),
        AppEvent::Down => Some(Key::Down),
        _ => None,
    }
}

/// What one routed event does at the help overlay: Escape closes it, Up and
/// Down scroll, nothing else changes.
pub open spec fn spec_help_outcome(pre: AppCore, post: AppCore, event: AppEvent, eff: Effects) -> bool {
    &&& !eff.save_todos && !eff.save_config
    &&& post == (AppCore { help_modal: post.help_modal, ..pre })
    &&& (event is Escape ==> !post.help_modal.active && post.help_modal.scroll_offset == 0)
    &&& (event is Up ==> post.help_modal.active == pre.help_modal.active
        && post.help_modal.scroll_offset == (if pre.help_modal.scroll_offset > 0 {
        pre.help_modal.scroll_offset - 1
    } else {
        0int
    }))
    &&& (event is Down ==> post.help_modal.active == pre.help_modal.active
        && post.help_modal.scroll_offset == (if pre.help_modal.scroll_offset < usize::MAX {
        pre.help_modal.scroll_offset + 1
    } else {
        pre.help_modal.scroll_offset as int
    }))
    &&& (!(event is Escape || event is Up || event is Down) ==> post.help_modal
        == pre.help_modal)
}

/// What one routed event does at the preview overlay.
pub open spec fn spec_preview_outcome(pre: AppCore, post: AppCore, event: AppEvent, eff: Effects) -> bool {
    &&& !eff.save_todos && !eff.save_config
    &&& post == (AppCore { preview_modal: post.preview_modal, ..pre })
    &&& (event is Escape ==> !post.preview_modal.active)
    &&& (event is Up ==> post.preview_modal.active == pre.preview_modal.active
        && post.preview_modal.scroll_offset == (if pre.preview_modal.scroll_offset > 0 {
        pre.preview_modal.scroll_offset - 1
    } else {
        0int
    }))
    &&& (event is Down ==> post.preview_modal.active == pre.preview_modal.active
        && post.preview_modal.scroll_offset == (if pre.preview_modal.scroll_offset < usize::MAX {
        pre.preview_modal.scroll_offset + 1
    } else {
        pre.preview_modal.scroll_offset as int
    }))
    &&& (!(event is Escape || event is Up || event is Down) ==> post.preview_modal
        == pre.preview_modal)
}

/// What one routed event does at the confirmation dialog: Escape cancels,
/// Left and Right flip the selection, Enter carries out the action when
/// "yes" is selected and always closes the dialog.
pub open spec fn spec_confirmation_outcome(pre: AppCore, post: AppCore, event: AppEvent, eff: Effects) -> bool {
    &&& !eff.save_config
    &&& post.settings == pre.settings
    &&& post.help_modal == pre.help_modal
    &&& post.preview_modal == pre.preview_modal
    &&& post.config == pre.config
    &&& (event is Escape ==> !post.confirmation_modal.active && post.todos == pre.todos
        && !eff.save_todos)
    &&& ((event is Left || event is Right) ==> post == (AppCore {
        confirmation_modal: post.confirmation_modal,
        ..pre
    }) && post.confirmation_modal.selected_option == !pre.confirmation_modal.selected_option
        && !eff.save_todos)
    &&& (event is Enter ==> !post.confirmation_modal.active)
    &&& ((event is Enter && !pre.confirmation_modal.selected_option) ==> post.todos == pre.todos
        && !eff.save_todos)
    &&& ((event is Enter && pre.confirmation_modal.selected_option && (
        pre.confirmation_modal.action matches Some(a) && a is DiscardUnsavedChanges))
        ==> !post.add_todo_modal.input_handler.spec_active() && post.editing_todo_id is None
        && post.todos == pre.todos && !eff.save_todos)
    &&& ((event is Enter && pre.confirmation_modal.selected_option && (
        pre.confirmation_modal.action matches Some(a) && (a is Complete || a is Delete))
        && AppCore::spec_selected_index(pre) is Some) ==> eff.save_todos)
    &&& (!(event is Escape || event is Left || event is Right || event is Enter) ==> post == pre
        && !eff.save_todos)
}

/// What one routed event does at the settings overlay, including its nested
/// selection list.
pub open spec fn spec_settings_outcome(pre: AppCore, post: AppCore, event: AppEvent, eff: Effects) -> bool {
    &&& !eff.save_todos
    &&& post.todos == pre.todos
    &&& post.confirmation_modal == pre.confirmation_modal
    &&& post.help_modal == pre.help_modal
    &&& post.preview_modal == pre.preview_modal
    &&& post.should_quit == pre.should_quit
    &&& (eff.save_config ==> post.config.theme == spec_theme_of(post.settings.settings@)
        && post.config.ui.date_format == spec_date_format_of(post.settings.settings@))
    &&& (!pre.settings.multi_select_active && event is Escape ==> !post.settings.active
        && post.config == pre.config)
    &&& (!pre.settings.multi_select_active && (event is Enter || event is Space)
        ==> eff.save_config && post.config.ui.vim_mode == spec_vim_mode_of(
        post.settings.settings@,
    ) && post.config.ui.compact_mode == spec_compact_mode_of(post.settings.settings@) && (
    pre.config.ui.vim_mode != post.config.ui.vim_mode ==> (post.add_todo_modal.input_handler
        is Vim <==> post.config.ui.vim_mode)))
}

/// What one routed event does at the editor overlay: Escape closes it
/// (asking for confirmation when edits would be lost), the save events save
/// and close, Tab and BackTab switch the focused field, and the editing keys
/// reach the editor inside.
pub open spec fn spec_modal_outcome(pre: AppCore, post: AppCore, event: AppEvent, eff: Effects) -> bool {
    &&& !eff.save_config
    &&& post.settings == pre.settings
    &&& post.help_modal == pre.help_modal
    &&& post.preview_modal == pre.preview_modal
    &&& post.config == pre.config
    &&& (event is Escape ==> post.todos == pre.todos && !eff.save_todos && (if
    pre.add_todo_modal.spec_unsaved() {
        &&& post.confirmation_modal.active
        &&& post.confirmation_modal.action == Some(ConfirmationAction::DiscardUnsavedChanges)
        &&& post.add_todo_modal == pre.add_todo_modal
    } else {
        &&& !post.add_todo_modal.input_handler.spec_active()
        &&& post.editing_todo_id is None
        &&& post.confirmation_modal == pre.confirmation_modal
    }))
    &&& ((event is CtrlEnter || event is Save)
        ==> !post.add_todo_modal.input_handler.spec_active() && post.editing_todo_id is None && (
    spec_trim(pre.add_todo_modal.input_handler.spec_title()).len() > 0 && pre.editing_todo_id
        is None ==> eff.save_todos))
    &&& ((event is Tab || event is BackTab) ==> post.todos == pre.todos && !eff.save_todos
        && post.add_todo_modal.spec_title_focused() == !pre.add_todo_modal.spec_title_focused())
    &&& (!(event is Escape || event is CtrlEnter || event is Save) ==> post.todos == pre.todos
        && post.confirmation_modal == pre.confirmation_modal && post.editing_todo_id
        == pre.editing_todo_id && !eff.save_todos)
    &&& (match spec_editing_key(event) {
        Some(k) => (pre.add_todo_modal.input_handler matches InputHandler::Normal(i0) ==> (
        post.add_todo_modal.input_handler matches InputHandler::Normal(i1)
            && crate::normal_input::spec_line_editor_key(i0, i1, k))) && (
        pre.add_todo_modal.input_handler matches InputHandler::Vim(v0) ==> (
        post.add_todo_modal.input_handler matches InputHandler::Vim(v1) && v1@
            == crate::vim_input::spec_step(v0@, k))) && post.add_todo_modal.original_title
            == pre.add_todo_modal.original_title && post.add_todo_modal.original_description
            == pre.add_todo_modal.original_description,
        None => true,
    })
}

/// What one routed event does in the base list view.
pub open spec fn spec_normal_outcome(pre: AppCore, post: AppCore, event: AppEvent, eff: Effects) -> bool {
    &&& !eff.save_todos
    &&& AppCore::only_expansion_differs(pre.todos.items@, post.todos.items@)
    &&& (post.settings.active ==> pre.settings.active || event is OpenSettings)
    &&& (event is Quit ==> post == (AppCore { should_quit: true, ..pre }) && !eff.save_config)
    &&& ((event is Up || event is Down) ==> !eff.save_config && (if pre.active_pane {
        post.completed_list == pre.completed_list
    } else {
        post.active_list == pre.active_list
    }) && ({
        let pane = AppCore::spec_current_pane(pre);
        let pane2 = AppCore::spec_current_pane(post);
        let n = pane.spec_shown(pre.todos).len();
        let sel = match pane.selected {
            Some(s) => s as int,
            None => 0,
        };
        if n == 0 {
            pane2.selected is None
        } else if event is Down {
            pane2.selected == Some((if sel >= n - 1 { 0 } else { sel + 1 }) as usize)
        } else {
            pane2.selected == Some((if sel == 0 { n - 1 } else { sel - 1 }) as usize)
        }
    }))
    &&& (event is SwitchPane ==> post.active_pane == !pre.active_pane && (pre.zoomed_pane is Some
        ==> post.zoomed_pane == Some(post.active_pane)))
    &&& (event is GoToLeftPane ==> post.active_pane)
    &&& (event is GoToRightPane ==> !post.active_pane)
    &&& ((event is Space || event is Delete) ==> (match AppCore::spec_selected_index(pre) {
        Some(idx) => post.confirmation_modal.active && (match post.confirmation_modal.action {
            Some(a) => (event is Space ==> a is Complete) && (event is Delete ==> a is Delete),
            None => false,
        }),
        None => post == pre,
    }) && !eff.save_config)
    &&& (event is ExpandAll ==> AppCore::spec_current_pane(post).expand_all)
    &&& (event is CollapseAll ==> !AppCore::spec_current_pane(post).expand_all)
    &&& (event is AddTodo ==> post.add_todo_modal.input_handler.spec_active()
        && post.add_todo_modal.input_handler.spec_title().len() == 0 && !eff.save_config)
    &&& (event is ToggleTheme ==> post.config.theme == pre.config.theme.spec_next()
        && eff.save_config)
    &&& (event is OpenSettings ==> post.settings.active && post.settings.settings@
        =~= SettingsModal::spec_items(
        pre.config.theme,
        pre.config.ui.date_format,
        pre.config.ui.vim_mode,
        pre.config.ui.compact_mode,
    ) && !eff.save_config)
    &&& (event is ShowHelp ==> post.help_modal.active && !eff.save_config)
    &&& (event is EditTodo ==> (match AppCore::spec_selected_index(pre) {
        Some(idx) => post.editing_todo_id == Some(pre.todos.items@[idx].id)
            && post.add_todo_modal.input_handler.spec_active()
            && post.add_todo_modal.input_handler.spec_title() == pre.todos.items@[idx].title@,
        None => post == pre,
    }) && !eff.save_config)
    &&& (event is PreviewTodo ==> (match AppCore::spec_selected_index(pre) {
        Some(idx) => post.preview_modal.active && post.preview_modal.title@
            == pre.todos.items@[idx].title@,
        None => post == pre,
    }) && !eff.save_config)
    &&& (event is IncreaseSplit ==> (if pre.config.ui.split_ratio < 90 {
        post.config.ui.split_ratio == pre.config.ui.split_ratio + 10 && eff.save_config
    } else {
        post == pre && !eff.save_config
    }))
    &&& (event is DecreaseSplit ==> (if pre.config.ui.split_ratio > 10 {
        post.config.ui.split_ratio == pre.config.ui.split_ratio - 10 && eff.save_config
    } else {
        post == pre && !eff.save_config
    }))
    &&& ((event matches AppEvent::Char(c) && !pre.config.ui.vim_mode) ==> post == pre
        && !eff.save_config)
}


/// Which keys the application claims away from an editing vim editor:
/// Escape when the editor would let the overlay close, Tab and BackTab, and
/// the save chords; every other key belongs to the editor itself.
pub open spec fn spec_app_claims(m: AddTodoModal, key: KeyPress) -> bool {
    match key.code {
        Key::Esc => match m.input_handler {
            InputHandler::Normal(_) => true,
            InputHandler::Vim(v) => v@.focus is Title || v@.vim_mode is Normal,
        },
        Key::Tab => true,
        Key::BackTab => true,
        Key::Enter => key.ctrl,
        Key::Char(c) => key.ctrl && c == 's',
        _ => false,
    }
}

/// What saving the editor overlay's entry does to the todos: a blank title
/// saves nothing; with an entry being edited that entry is retitled,
/// otherwise a new entry is appended; either way the caller is asked to
/// persist.
pub open spec fn spec_save_outcome(
    pre: AppCore,
    post: AppCore,
    title: Seq<char>,
    desc: Seq<char>,
    eff: Effects,
) -> bool {
    if spec_trim(title).len() == 0 {
        post.todos == pre.todos && !eff.save_todos
    } else {
        match pre.editing_todo_id {
            None => {
                &&& eff.save_todos
                &&& post.todos.items@.len() == pre.todos.items@.len() + 1
                &&& post.todos.items@.drop_last() == pre.todos.items@
                &&& post.todos.items@.last().title@ == title
                &&& (desc.len() == 0 ==> post.todos.items@.last().description is None)
                &&& (desc.len() > 0 ==> (post.todos.items@.last().description matches Some(d)
                    && d@ == desc))
            },
            Some(id) => {
                let j = crate::todo::spec_find(pre.todos.items@, id);
                if j < pre.todos.items@.len() {
                    eff.save_todos && post.todos.items@.len() == pre.todos.items@.len()
                        && post.todos.items@[j].title@ == title
                } else {
                    post.todos.items@ == pre.todos.items@ && !eff.save_todos
                }
            },
        }
    }
}

/// What one unclaimed key does while the vim editor edits: the editor takes
/// its `spec_step` transition, and the emitted control command decides the
/// rest. A Save command saves and keeps the editor open; SaveAndClose saves
/// and closes it; Quit never saves and never closes past unsaved changes --
/// it opens the discard confirmation exactly when they exist, else closes
/// the overlay and clears the entry being edited.
pub open spec fn spec_vim_editor_key_outcome(
    pre: AppCore,
    post: AppCore,
    v0: crate::vim_input::VimView,
    k: Key,
    eff: Effects,
) -> bool {
    let stepped = spec_step(v0, k);
    let title = v0.title;
    let desc = spec_trim(crate::text::spec_join_lines(v0.buf.lines));
    &&& !eff.save_config
    &&& post.settings == pre.settings
    &&& post.help_modal == pre.help_modal
    &&& post.preview_modal == pre.preview_modal
    &&& post.config == pre.config
    &&& post.add_todo_modal.original_title == pre.add_todo_modal.original_title
    &&& post.add_todo_modal.original_description == pre.add_todo_modal.original_description
    &&& match spec_command_emit(v0, k) {
        None => (post.add_todo_modal.input_handler matches InputHandler::Vim(v1) && v1@
            == stepped) && post.todos == pre.todos && !eff.save_todos && post.confirmation_modal
            == pre.confirmation_modal && post.editing_todo_id == pre.editing_todo_id,
        Some(VimCommand::Save) => (post.add_todo_modal.input_handler matches InputHandler::Vim(v1)
            && v1@ == stepped) && post.confirmation_modal == pre.confirmation_modal
            && post.editing_todo_id == pre.editing_todo_id && spec_save_outcome(
            pre,
            post,
            title,
            desc,
            eff,
        ),
        Some(VimCommand::SaveAndClose) => !post.add_todo_modal.input_handler.spec_active()
            && post.editing_todo_id is None && post.confirmation_modal == pre.confirmation_modal
            && spec_save_outcome(pre, post, title, desc, eff),
        Some(VimCommand::Quit) => post.todos == pre.todos && !eff.save_todos && (if
        pre.add_todo_modal.spec_unsaved() {
            &&& post.confirmation_modal.active
            &&& post.confirmation_modal.action == Some(
                ConfirmationAction::DiscardUnsavedChanges,
            )
            &&& (post.add_todo_modal.input_handler matches InputHandler::Vim(v1) && v1@
                == stepped)
            &&& post.editing_todo_id == pre.editing_todo_id
        } else {
            &&& !post.add_todo_modal.input_handler.spec_active()
            &&& post.editing_todo_id is None
            &&& post.confirmation_modal == pre.confirmation_modal
        }),
    }
}

impl AppCore {
    /// Well-formedness of every component.
    pub open spec fn wf(self) -> bool {
        &&& self.add_todo_modal.wf()
        &&& self.settings.wf()
    }

    /// A fresh core over loaded todos and configuration: both panes at their
    /// first entry, no overlay active, the editor kind chosen by the
    /// configuration's vim-mode flag.
    pub fn new_with_config(config: AppConfig, todos: TodoList) -> (r: AppCore)
        ensures
            r.wf(),
            r.todos == todos,
            r.config == config,
            spec_route(r) is Base,
            !r.should_quit,
            r.active_pane,
            !r.active_list.show_completed,
            r.completed_list.show_completed,
            r.editing_todo_id is None,
            r.vim_prefix is None,
            r.zoomed_pane is None,
            r.add_todo_modal.input_handler is Vim <==> config.ui.vim_mode,
    {
        let mut active_list = TodoListComponent::new();
        let mut completed_list = TodoListComponent::new();
        completed_list.show_completed = true;
        let vim_mode = config.ui.vim_mode;
        AppCore {
            todos,
            config,
            mode: AppMode::Normal,
            active_list,
            completed_list,
            active_pane: true,
            settings: SettingsModal::new(),
            add_todo_modal: AddTodoModal::new_with_vim_mode(vim_mode),
            confirmation_modal: ConfirmationModal::new(),
            help_modal: HelpModal::new(),
            preview_modal: PreviewModal::new(),
            toast_manager: ToastManager::new(),
            should_quit: false,
            editing_todo_id: None,
            vim_prefix: None,
            zoomed_pane: None,
        }
    }

    /// Maps a key press to an event for the active layer; see
    /// `spec_convert_key_event`.
    pub fn convert_key_event(&self, key: KeyPress) -> (r: Option<AppEvent>)
        ensures
            r == spec_convert_key_event(*self, key),
    {
        if self.confirmation_modal.active {
            match key.code {
                Key::Esc => Some(AppEvent::Escape),
                Key::Left => Some(AppEvent::Left),
                Key::Right => Some(AppEvent::Right),
                Key::Enter => Some(AppEvent::Enter),
                Key::Char(c) => {
                    if c == 'h' {
                        Some(AppEvent::Left)
                    } else if c == 'l' {
                        Some(AppEvent::Right)
                    } else {
                        None
                    }
                },
                _ => None,
            }
        } else if self.settings.active {
            match key.code {
                Key::Esc => Some(AppEvent::Escape),
                Key::Up => Some(AppEvent::Up),
                Key::Down => Some(AppEvent::Down),
                Key::Enter => Some(AppEvent::Enter),
                Key::Tab => Some(AppEvent::Tab),
                Key::BackTab => Some(AppEvent::BackTab),
                Key::Char(c) => {
                    if c == 'k' {
                        Some(AppEvent::Up)
                    } else if c == 'j' {
                        Some(AppEvent::Down)
                    } else {
                        None
                    }
                },
                _ => None,
            }
        } else if self.help_modal.active {
            match key.code {
                Key::Esc => Some(AppEvent::Escape),
                Key::Up => Some(AppEvent::Up),
                Key::Down => Some(AppEvent::Down),
                Key::Char(c) => {
                    if c == '?' {
                        Some(AppEvent::Escape)
                    } else if c == 'k' {
                        Some(AppEvent::Up)
                    } else if c == 'j' {
                        Some(AppEvent::Down)
                    } else {
                        None
                    }
                },
                _ => None,
            }
        } else if self.preview_modal.active {
            match key.code {
                Key::Esc => Some(AppEvent::Escape),
                Key::Up => Some(AppEvent::Up),
                Key::Down => Some(AppEvent::Down),
                Key::Char(c) => {
                    if c == 'p' {
                        Some(AppEvent::Escape)
                    } else if c == 'k' {
                        Some(AppEvent::Up)
                    } else if c == 'j' {
                        Some(AppEvent::Down)
                    } else {
                        None
                    }
                },
                _ => None,
            }
        } else if self.add_todo_modal.active() {
            if key.ctrl {
                match key.code {
                    Key::Enter => Some(AppEvent::CtrlEnter),
                    Key::Char(c) => {
                        if c == 's' {
                            Some(AppEvent::Save)
                        } else {
                            None
                        }
                    },
                    _ => None,
                }
            } else {
                match key.code {
                    Key::Tab => Some(AppEvent::Tab),
                    Key::BackTab => Some(AppEvent::BackTab),
                    Key::Enter => Some(AppEvent::Enter),
                    Key::Esc => Some(AppEvent::Escape),
                    Key::Backspace => Some(AppEvent::Backspace),
                    Key::Left => Some(AppEvent::Left),
                    Key::Right => Some(AppEvent::Right),
                    Key::Up => Some(AppEvent::Up),
                    Key::Down => Some(AppEvent::Down),
                    Key::Char(c) => Some(AppEvent::Char(c)),
                    _ => None,
                }
            }
        } else {
            if key.ctrl {
                match key.code {
                    Key::Char(c) => {
                        if c == 'c' {
                            Some(AppEvent::Quit)
                        } else {
                            None
                        }
                    },
                    _ => None,
                }
            } else {
                match key.code {
                    Key::Up => Some(AppEvent::Up),
                    Key::Down => Some(AppEvent::Down),
                    Key::Enter => Some(AppEvent::Enter),
                    Key::Delete => Some(AppEvent::Delete),
                    Key::Esc => Some(AppEvent::Escape),
                    Key::Tab => Some(AppEvent::SwitchPane),
                    Key::Left => Some(AppEvent::GoToLeftPane),
                    Key::Right => Some(AppEvent::GoToRightPane),
                    Key::Char(c) => {
                        if self.config.ui.vim_mode && self.vim_prefix.is_some() {
                            Some(AppEvent::Char(c))
                        } else if c == 'q' {
                            Some(AppEvent::Quit)
                        } else if c == 'k' {
                            Some(AppEvent::Up)
                        } else if c == 'j' {
                            Some(AppEvent::Down)
                        } else if c == ' ' {
                            Some(AppEvent::Space)
                        } else if c == 'd' {
                            Some(AppEvent::Delete)
                        } else if c == 't' {
                            Some(AppEvent::ToggleTheme)
                        } else if c == 's' {
                            Some(AppEvent::OpenSettings)
                        } else if c == '?' {
                            Some(AppEvent::ShowHelp)
                        } else if c == '+' {
                            Some(AppEvent::AddTodo)
                        } else if c == 'e' {
                            Some(AppEvent::ToggleExpand)
                        } else if c == 'E' {
                            Some(AppEvent::ExpandAll)
                        } else if c == 'C' {
                            Some(AppEvent::CollapseAll)
                        } else if c == 'r' {
                            Some(AppEvent::EditTodo)
                        } else if c == 'p' {
                            Some(AppEvent::PreviewTodo)
                        } else if c == '=' {
                            Some(AppEvent::IncreaseSplit)
                        } else if c == '-' {
                            Some(AppEvent::DecreaseSplit)
                        } else if c == 'h' {
                            Some(AppEvent::GoToLeftPane)
                        } else if c == 'l' {
                            Some(AppEvent::GoToRightPane)
                        } else if c == 'f' {
                            Some(AppEvent::ToggleZoom)
                        } else if c == 'z' && self.config.ui.vim_mode {
                            Some(AppEvent::Char('z'))
                        } else if c == 'a' && self.config.ui.vim_mode {
                            Some(AppEvent::Char('a'))
                        } else {
                            None
                        }
                    },
                    _ => None,
                }
            }
        }
    }

    /// Zooms the active pane, or leaves zoom if a pane is zoomed.
    pub fn toggle_zoom(&mut self)
        ensures
            old(self).zoomed_pane is None ==> *final(self) == (AppCore {
                zoomed_pane: Some(old(self).active_pane),
                ..*old(self)
            }),
            old(self).zoomed_pane is Some ==> *final(self) == (AppCore {
                zoomed_pane: None,
                ..*old(self)
            }),
    {
        match self.zoomed_pane {
            None => {
                self.zoomed_pane = Some(self.active_pane);
            },
            Some(_) => {
                self.zoomed_pane = None;
            },
        }
    }

    /// One key of the help overlay: Escape closes it, Up and Down scroll.
    pub fn handle_help_event(&mut self, event: AppEvent) -> (eff: Effects)
        ensures
            spec_help_outcome(*old(self), *final(self), event, eff),
    {
        match event {
            AppEvent::Escape => self.help_modal.close(),
            AppEvent::Up => self.help_modal.scroll_up(),
            AppEvent::Down => self.help_modal.scroll_down(),
            _ => {},
        }
        Effects::none()
    }

    /// One key of the preview overlay: Escape closes it, Up and Down scroll.
    pub fn handle_preview_event(&mut self, event: AppEvent) -> (eff: Effects)
        ensures
            spec_preview_outcome(*old(self), *final(self), event, eff),
    {
        match event {
            AppEvent::Escape => self.preview_modal.close(),
            AppEvent::Up => self.preview_modal.scroll_up(),
            AppEvent::Down => self.preview_modal.scroll_down(),
            _ => {},
        }
        Effects::none()
    }

    /// Carries out a confirmed action: discarding unsaved edits closes the
    /// editor overlay; completing or deleting acts on the selected entry and
    /// asks the caller to persist the todos.
    pub fn execute_confirmation_action(&mut self, action: ConfirmationAction) -> (eff: Effects)
        requires
            old(self).wf(),
        ensures
            final(self).wf(),
            !eff.save_config,
            final(self).settings == old(self).settings,
            final(self).help_modal == old(self).help_modal,
            final(self).preview_modal == old(self).preview_modal,
            final(self).config == old(self).config,
            final(self).confirmation_modal == old(self).confirmation_modal,
            final(self).should_quit == old(self).should_quit,
            action is DiscardUnsavedChanges ==> !final(self).add_todo_modal.input_handler.spec_active()
                && final(self).editing_todo_id is None && final(self).todos == old(self).todos
                && !eff.save_todos,
            (action is Complete || action is Delete) ==> final(self).editing_todo_id == old(self).editing_todo_id
                && final(self).add_todo_modal.input_handler.spec_active()
                    == old(self).add_todo_modal.input_handler.spec_active(),
            (action is Complete || action is Delete) ==> ({
                let pane = if old(self).active_pane { old(self).active_list } else { old(self).completed_list };
                let shown = pane.spec_shown(old(self).todos);
                match pane.selected {
                    Some(sel) => if sel < shown.len() {
                        let id = old(self).todos.items@[shown[sel as int] as int].id;
                        let j = crate::todo::spec_find(old(self).todos.items@, id);
                        &&& eff.save_todos
                        &&& (action is Delete ==> final(self).todos.items@
                            == old(self).todos.items@.remove(j))
                        &&& (action is Complete ==> final(self).todos.items@.len()
                            == old(self).todos.items@.len() && final(self).todos.items@[j].completed
                            == !old(self).todos.items@[j].completed)
                    } else {
                        final(self).todos == old(self).todos && !eff.save_todos
                    },
                    None => final(self).todos == old(self).todos && !eff.save_todos,
                }
            }),
    {
        match action {
            ConfirmationAction::DiscardUnsavedChanges => {
                self.add_todo_modal.close();
                self.editing_todo_id = None;
                self.toast_manager.info(String::from_str("Changes discarded"));
                Effects::none()
            },
            ConfirmationAction::Complete(_) => {
                let sel = if self.active_pane {
                    self.active_list.get_selected_todo(&self.todos)
                } else {
                    self.completed_list.get_selected_todo(&self.todos)
                };
                match sel {
                    Some(idx) => {
                        let id = self.todos.items[idx].id;
                        let was_completed = self.todos.items[idx].completed;
                        proof {
                            crate::todo::lemma_spec_find(old(self).todos.items@, id);
                        }
                        self.todos.toggle_todo(id);
                        let title = self.todos_title_at_or_empty(idx);
                        if was_completed {
                            let mut m = String::from_str("Reopened: ");
                            m.append(title.as_str());
                            self.toast_manager.warning(m);
                        } else {
                            let mut m = String::from_str("Completed: ");
                            m.append(title.as_str());
                            self.toast_manager.success(m);
                        }
                        self.active_list.validate_selection(&self.todos);
                        self.completed_list.validate_selection(&self.todos);
                        Effects { save_todos: true, save_config: false }
                    },
                    None => Effects::none(),
                }
            },
            ConfirmationAction::Delete(_) => {
                let sel = if self.active_pane {
                    self.active_list.get_selected_todo(&self.todos)
                } else {
                    self.completed_list.get_selected_todo(&self.todos)
                };
                match sel {
                    Some(idx) => {
                        let id = self.todos.items[idx].id;
                        let title = self.todos_title_at_or_empty(idx);
                        proof {
                            crate::todo::lemma_spec_find(old(self).todos.items@, id);
                        }
                        self.todos.remove_todo(id);
                        let mut m = String::from_str("Deleted: ");
                        m.append(title.as_str());
                        self.toast_manager.error(m);
                        self.active_list.validate_selection(&self.todos);
                        self.completed_list.validate_selection(&self.todos);
                        Effects { save_todos: true, save_config: false }
                    },
                    None => Effects::none(),
                }
            },
        }
    }

    /// A copy of one entry's title, or the empty string out of range.
    fn todos_title_at_or_empty(&self, idx: usize) -> (r: String)
        ensures
            idx < self.todos.items@.len() ==> r == self.todos.items@[idx as int].title,
    {
        if idx < self.todos.items.len() {
            let t = &self.todos.items[idx];
            t.title.clone()
        } else {
            String::new()
        }
    }

    /// One key of the confirmation dialog: Escape cancels, Left and Right
    /// flip the selection, Enter carries out the action when "yes" is
    /// selected, and always closes the dialog.
    pub fn handle_confirmation_event(&mut self, event: AppEvent) -> (eff: Effects)
        requires
            old(self).wf(),
        ensures
            final(self).wf(),
            spec_confirmation_outcome(*old(self), *final(self), event, eff),
    {
        match event {
            AppEvent::Escape => {
                self.confirmation_modal.close();
                Effects::none()
            },
            AppEvent::Left => {
                self.confirmation_modal.toggle_selection();
                Effects::none()
            },
            AppEvent::Right => {
                self.confirmation_modal.toggle_selection();
                Effects::none()
            },
            AppEvent::Enter => {
                let mut eff = Effects::none();
                if self.confirmation_modal.is_yes_selected() {
                    let action = match &self.confirmation_modal.action {
                        Some(ConfirmationAction::Complete(_)) => Some(
                            ConfirmationAction::Complete(String::new()),
                        ),
                        Some(ConfirmationAction::Delete(_)) => Some(
                            ConfirmationAction::Delete(String::new()),
                        ),
                        Some(ConfirmationAction::DiscardUnsavedChanges) => Some(
                            ConfirmationAction::DiscardUnsavedChanges,
                        ),
                        None => None,
                    };
                    match action {
                        Some(a) => {
                            eff = self.execute_confirmation_action(a);
                        },
                        None => {},
                    }
                }
                self.confirmation_modal.close();
                eff
            },
            _ => Effects::none(),
        }
    }

    /// Saves the editor overlay's entry: a blank title saves nothing; with
    /// an entry being edited the entry is updated, otherwise a new one is
    /// appended; either way the caller is asked to persist.
    pub fn save_todo_from_modal(&mut self) -> (eff: Effects)
        requires
            old(self).wf(),
        ensures
            final(self).wf(),
            !eff.save_config,
            final(self).settings == old(self).settings,
            final(self).help_modal == old(self).help_modal,
            final(self).preview_modal == old(self).preview_modal,
            final(self).config == old(self).config,
            final(self).confirmation_modal == old(self).confirmation_modal,
            final(self).add_todo_modal == old(self).add_todo_modal,
            final(self).editing_todo_id == old(self).editing_todo_id,
            spec_trim(old(self).add_todo_modal.input_handler.spec_title()).len() == 0 ==> final(self).todos == old(self).todos && !eff.save_todos,
            spec_trim(old(self).add_todo_modal.input_handler.spec_title()).len() > 0 ==> ({
                let title = old(self).add_todo_modal.input_handler.spec_title();
                let desc = old(self).add_todo_modal.input_handler.spec_description();
                match old(self).editing_todo_id {
                    None => {
                        &&& eff.save_todos
                        &&& final(self).todos.items@.len() == old(self).todos.items@.len() + 1
                        &&& final(self).todos.items@.drop_last() == old(self).todos.items@
                        &&& final(self).todos.items@.last().title@ == title
                        &&& (desc.len() == 0 ==> final(self).todos.items@.last().description
                            is None)
                        &&& (desc.len() > 0 ==> (final(self).todos.items@.last().description
                            matches Some(d) && d@ == desc))
                    },
                    Some(id) => {
                        let j = crate::todo::spec_find(old(self).todos.items@, id);
                        if j < old(self).todos.items@.len() {
                            &&& eff.save_todos
                            &&& final(self).todos.items@.len() == old(self).todos.items@.len()
                            &&& final(self).todos.items@[j].title@ == title
                        } else {
                            final(self).todos.items@ == old(self).todos.items@ && !eff.save_todos
                        }
                    },
                }
            }),
    {
        let title = self.add_todo_modal.get_title();
        let title_chars = str_to_chars(title.as_str());
        let trimmed = trim_chars(&title_chars);
        if trimmed.len() == 0 {
            return Effects::none();
        }
        let description = self.add_todo_modal.get_description();
        match self.editing_todo_id {
            Some(id) => {
                proof {
                    crate::todo::lemma_spec_find(old(self).todos.items@, id);
                }
                let found = self.todos.update_todo(id, title, description);
                if found {
                    self.toast_manager.success(String::from_str("Todo updated successfully!"));
                    Effects { save_todos: true, save_config: false }
                } else {
                    Effects::none()
                }
            },
            None => {
                self.todos.add_todo(title, description);
                self.toast_manager.success(String::from_str("Todo created successfully!"));
                Effects { save_todos: true, save_config: false }
            },
        }
    }

    /// One routed event for the editor overlay: Escape closes it (asking for
    /// confirmation when edits would be lost), save events save and close,
    /// Tab and BackTab switch the focused field.
    pub fn handle_modal_event(&mut self, event: AppEvent) -> (eff: Effects)
        requires
            old(self).wf(),
            old(self).add_todo_modal.input_handler.spec_room(),
        ensures
            final(self).wf(),
            spec_modal_outcome(*old(self), *final(self), event, eff),
    {
        match event {
            AppEvent::Escape => {
                if self.add_todo_modal.has_unsaved_changes() {
                    self.confirmation_modal.open(ConfirmationAction::DiscardUnsavedChanges);
                } else {
                    self.add_todo_modal.close();
                    self.editing_todo_id = None;
                }
                Effects::none()
            },
            AppEvent::CtrlEnter => {
                let eff = self.save_todo_from_modal();
                self.add_todo_modal.close();
                self.editing_todo_id = None;
                eff
            },
            AppEvent::Save => {
                let eff = self.save_todo_from_modal();
                self.add_todo_modal.close();
                self.editing_todo_id = None;
                eff
            },
            AppEvent::Tab => {
                if self.add_todo_modal.is_in_title_mode() {
                    self.add_todo_modal.switch_to_description();
                } else {
                    self.add_todo_modal.switch_to_title();
                }
                Effects::none()
            },
            AppEvent::BackTab => {
                if self.add_todo_modal.is_in_title_mode() {
                    self.add_todo_modal.switch_to_description();
                } else {
                    self.add_todo_modal.switch_to_title();
                }
                Effects::none()
            },
            AppEvent::Char(c) => {
                self.add_todo_modal.handle_char(c);
                Effects::none()
            },
            AppEvent::Backspace => {
                self.add_todo_modal.handle_backspace();
                Effects::none()
            },
            AppEvent::Enter => {
                self.add_todo_modal.handle_enter();
                Effects::none()
            },
            AppEvent::Left => {
                self.add_todo_modal.move_cursor_left();
                Effects::none()
            },
            AppEvent::Right => {
                self.add_todo_modal.move_cursor_right();
                Effects::none()
            },
            AppEvent::Up => {
                self.add_todo_modal.move_cursor_up();
                Effects::none()
            },
            AppEvent::Down => {
                self.add_todo_modal.move_cursor_down();
                Effects::none()
            },
            _ => Effects::none(),
        }
    }

    /// One routed event for the settings overlay, including its nested
    /// selection list; choices flow into the configuration, which the caller
    /// is asked to persist; flipping vim mode rebuilds the editor from
    /// scratch, discarding any in-progress edit.
    pub fn handle_settings_event(&mut self, event: AppEvent) -> (eff: Effects)
        requires
            old(self).wf(),
        ensures
            final(self).wf(),
            spec_settings_outcome(*old(self), *final(self), event, eff),
    {
        if self.settings.multi_select_active {
            let key_code = match event {
                AppEvent::Escape => Key::Esc,
                AppEvent::Enter => Key::Enter,
                AppEvent::Up => Key::Up,
                AppEvent::Down => Key::Down,
                AppEvent::Tab => Key::Tab,
                AppEvent::BackTab => Key::BackTab,
                AppEvent::Char(c) => {
                    if c == 'k' || c == 'j' {
                        Key::Char(c)
                    } else {
                        return Effects::none();
                    }
                },
                _ => {
                    return Effects::none();
                },
            };
            if self.settings.handle_multi_select_input(key_code) {
                if !self.settings.multi_select_active {
                    self.config.theme = self.settings.get_theme();
                    self.config.ui.date_format = self.settings.get_date_format();
                    return Effects { save_todos: false, save_config: true };
                }
                return Effects::none();
            }
            return Effects::none();
        }
        match event {
            AppEvent::Escape => {
                self.settings.close();
                Effects::none()
            },
            AppEvent::Up => {
                self.settings.previous_item();
                Effects::none()
            },
            AppEvent::Down => {
                self.settings.next_item();
                Effects::none()
            },
            AppEvent::Char(c) => {
                if c == 'k' {
                    self.settings.previous_item();
                } else if c == 'j' {
                    self.settings.next_item();
                }
                Effects::none()
            },
            AppEvent::Enter => self.apply_settings_toggle(),
            AppEvent::Space => self.apply_settings_toggle(),
            _ => Effects::none(),
        }
    }

    /// Acts on the selected setting and pulls every setting's value into the
    /// configuration; see `handle_settings_event`.
    fn apply_settings_toggle(&mut self) -> (eff: Effects)
        requires
            old(self).wf(),
            !old(self).settings.multi_select_active,
        ensures
            final(self).wf(),
            !eff.save_todos,
            eff.save_config,
            final(self).todos == old(self).todos,
            final(self).confirmation_modal == old(self).confirmation_modal,
            final(self).help_modal == old(self).help_modal,
            final(self).preview_modal == old(self).preview_modal,
            final(self).should_quit == old(self).should_quit,
            final(self).config.theme == spec_theme_of(final(self).settings.settings@),
            final(self).config.ui.date_format == spec_date_format_of(final(self).settings.settings@),
            final(self).config.ui.vim_mode == spec_vim_mode_of(final(self).settings.settings@),
            final(self).config.ui.compact_mode == spec_compact_mode_of(
                final(self).settings.settings@,
            ),
            old(self).config.ui.vim_mode != final(self).config.ui.vim_mode ==> (final(self).add_todo_modal.input_handler is Vim <==> final(self).config.ui.vim_mode),
    {
        let old_vim_mode = self.config.ui.vim_mode;
        let old_compact_mode = self.config.ui.compact_mode;
        self.settings.toggle_selected();
        self.config.theme = self.settings.get_theme();
        self.config.ui.date_format = self.settings.get_date_format();
        self.config.ui.vim_mode = self.settings.get_vim_mode();
        self.config.ui.compact_mode = self.settings.get_compact_mode();
        if old_vim_mode != self.config.ui.vim_mode {
            self.add_todo_modal = AddTodoModal::new_with_vim_mode(self.config.ui.vim_mode);
            if self.config.ui.vim_mode {
                self.toast_manager.info(String::from_str("Vim mode: Enabled"));
            } else {
                self.toast_manager.info(String::from_str("Vim mode: Disabled"));
            }
        }
        if old_compact_mode != self.config.ui.compact_mode {
            if self.config.ui.compact_mode {
                self.toast_manager.info(String::from_str("Compact mode: Enabled"));
            } else {
                self.toast_manager.info(String::from_str("Compact mode: Disabled"));
            }
        }
        Effects { save_todos: false, save_config: true }
    }

    /// Whether two todo sequences differ at most in their expansion flags.
    pub open spec fn only_expansion_differs(a: Seq<TodoItem>, b: Seq<TodoItem>) -> bool {
        &&& a.len() == b.len()
        &&& forall|k: int|
            0 <= k < a.len() ==> #[trigger] b[k] == a[k] || b[k] == (TodoItem {
                expanded: b[k].expanded,
                ..a[k]
            })
    }

    /// The pane currently receiving list commands.
    pub open spec fn spec_current_pane(s: AppCore) -> TodoListComponent {
        if s.active_pane {
            s.active_list
        } else {
            s.completed_list
        }
    }

    /// The whole-list index of the selected entry of the current pane, if
    /// the selection points at one.
    pub open spec fn spec_selected_index(s: AppCore) -> Option<int> {
        let pane = AppCore::spec_current_pane(s);
        let shown = pane.spec_shown(s.todos);
        match pane.selected {
            Some(sel) => if sel < shown.len() {
                Some(shown[sel as int] as int)
            } else {
                None
            },
            None => None,
        }
    }

    /// One vim-style prefixed command in the base view: `z` waits for a
    /// second character; `zR`/`zO` expand and `zM`/`zC` collapse the current
    /// pane, `zA` flips it, and `zo`/`zc`/`za` set, clear or flip the
    /// selected entry's expansion. Anything else cancels the prefix.
    pub fn handle_vim_command(&mut self, c: char)
        requires
            old(self).wf(),
        ensures
            final(self).wf(),
            final(self).config == old(self).config,
            final(self).settings == old(self).settings,
            final(self).confirmation_modal == old(self).confirmation_modal,
            final(self).help_modal == old(self).help_modal,
            final(self).preview_modal == old(self).preview_modal,
            final(self).add_todo_modal == old(self).add_todo_modal,
            final(self).should_quit == old(self).should_quit,
            AppCore::only_expansion_differs(old(self).todos.items@, final(self).todos.items@),
            old(self).vim_prefix is None && c == 'z' ==> final(self).vim_prefix == Some('z')
                && final(self).todos.items@ == old(self).todos.items@,
            old(self).vim_prefix is None && c != 'z' ==> final(self).vim_prefix is None && final(self).todos.items@ == old(self).todos.items@,
            old(self).vim_prefix is Some ==> final(self).vim_prefix is None,
    {
        let pending = self.vim_prefix;
        match pending {
            None => {
                if c == 'z' {
                    self.vim_prefix = Some('z');
                } else {
                    self.vim_prefix = None;
                }
            },
            Some(p) => {
                self.vim_prefix = None;
                if p == 'z' {
                    if c == 'R' || c == 'O' {
                        if self.active_pane {
                            self.active_list.expand_all();
                        } else {
                            self.completed_list.expand_all();
                        }
                    } else if c == 'M' || c == 'C' {
                        if self.active_pane {
                            self.active_list.collapse_all();
                        } else {
                            self.completed_list.collapse_all();
                        }
                    } else if c == 'A' {
                        if self.active_pane {
                            self.active_list.toggle_expand_all();
                        } else {
                            self.completed_list.toggle_expand_all();
                        }
                    } else if c == 'o' || c == 'c' || c == 'a' {
                        let sel = if self.active_pane {
                            self.active_list.get_selected_todo(&self.todos)
                        } else {
                            self.completed_list.get_selected_todo(&self.todos)
                        };
                        match sel {
                            Some(idx) => {
                                let id = self.todos.items[idx].id;
                                proof {
                                    crate::todo::lemma_spec_find(self.todos.items@, id);
                                }
                                if c == 'o' {
                                    self.todos.set_expanded(id, true);
                                } else if c == 'c' {
                                    self.todos.set_expanded(id, false);
                                } else {
                                    self.todos.toggle_expanded(id);
                                }
                            },
                            None => {},
                        }
                    }
                }
            },
        }
    }

    /// One routed event for the base list view.
    pub fn handle_normal_event(&mut self, event: AppEvent) -> (eff: Effects)
        requires
            old(self).wf(),
        ensures
            final(self).wf(),
            spec_normal_outcome(*old(self), *final(self), event, eff),
    {
        match event {
            AppEvent::Quit => {
                self.should_quit = true;
                Effects::none()
            },
            AppEvent::Up => {
                if self.active_pane {
                    self.active_list.select_previous(&self.todos);
                } else {
                    self.completed_list.select_previous(&self.todos);
                }
                Effects::none()
            },
            AppEvent::Down => {
                if self.active_pane {
                    self.active_list.select_next(&self.todos);
                } else {
                    self.completed_list.select_next(&self.todos);
                }
                Effects::none()
            },
            AppEvent::SwitchPane => {
                self.active_pane = !self.active_pane;
                if self.zoomed_pane.is_some() {
                    self.zoomed_pane = Some(self.active_pane);
                }
                Effects::none()
            },
            AppEvent::GoToLeftPane => {
                self.active_pane = true;
                if self.zoomed_pane.is_some() {
                    self.zoomed_pane = Some(true);
                }
                Effects::none()
            },
            AppEvent::GoToRightPane => {
                self.active_pane = false;
                if self.zoomed_pane.is_some() {
                    self.zoomed_pane = Some(false);
                }
                Effects::none()
            },
            AppEvent::Space => {
                let sel = if self.active_pane {
                    self.active_list.get_selected_todo(&self.todos)
                } else {
                    self.completed_list.get_selected_todo(&self.todos)
                };
                match sel {
                    Some(idx) => {
                        let title = self.todos_title_at_or_empty(idx);
                        self.confirmation_modal.open(ConfirmationAction::Complete(title));
                    },
                    None => {},
                }
                Effects::none()
            },
            AppEvent::Delete => {
                let sel = if self.active_pane {
                    self.active_list.get_selected_todo(&self.todos)
                } else {
                    self.completed_list.get_selected_todo(&self.todos)
                };
                match sel {
                    Some(idx) => {
                        let title = self.todos_title_at_or_empty(idx);
                        self.confirmation_modal.open(ConfirmationAction::Delete(title));
                    },
                    None => {},
                }
                Effects::none()
            },
            AppEvent::ToggleExpand => {
                let sel = if self.active_pane {
                    self.active_list.get_selected_todo(&self.todos)
                } else {
                    self.completed_list.get_selected_todo(&self.todos)
                };
                match sel {
                    Some(idx) => {
                        let id = self.todos.items[idx].id;
                        proof {
                            crate::todo::lemma_spec_find(self.todos.items@, id);
                        }
                        self.todos.toggle_expanded(id);
                    },
                    None => {},
                }
                Effects::none()
            },
            AppEvent::ExpandAll => {
                if self.active_pane {
                    self.active_list.expand_all();
                } else {
                    self.completed_list.expand_all();
                }
                Effects::none()
            },
            AppEvent::CollapseAll => {
                if self.active_pane {
                    self.active_list.collapse_all();
                } else {
                    self.completed_list.collapse_all();
                }
                Effects::none()
            },
            AppEvent::ToggleZoom => {
                self.toggle_zoom();
                Effects::none()
            },
            AppEvent::AddTodo => {
                self.add_todo_modal.open();
                Effects::none()
            },
            AppEvent::ToggleTheme => {
                self.config.theme = self.config.theme.next();
                let mut m = String::from_str("Theme: ");
                m.append(self.config.theme.name());
                self.toast_manager.info(m);
                Effects { save_todos: false, save_config: true }
            },
            AppEvent::OpenSettings => {
                let theme = self.config.theme;
                let date_format = self.config.ui.date_format;
                self.settings.open(
                    &theme,
                    &date_format,
                    self.config.ui.vim_mode,
                    self.config.ui.compact_mode,
                );
                Effects::none()
            },
            AppEvent::ShowHelp => {
                self.help_modal.open();
                Effects::none()
            },
            AppEvent::EditTodo => {
                let sel = if self.active_pane {
                    self.active_list.get_selected_todo(&self.todos)
                } else {
                    self.completed_list.get_selected_todo(&self.todos)
                };
                match sel {
                    Some(idx) => {
                        let id = self.todos.items[idx].id;
                        let title = self.todos_title_at_or_empty(idx);
                        let desc = self.todos_description_at(idx);
                        self.editing_todo_id = Some(id);
                        match &desc {
                            Some(d) => self.add_todo_modal.open_with_data(
                                title.as_str(),
                                Some(d.as_str()),
                            ),
                            None => self.add_todo_modal.open_with_data(title.as_str(), None),
                        }
                    },
                    None => {},
                }
                Effects::none()
            },
            AppEvent::PreviewTodo => {
                let sel = if self.active_pane {
                    self.active_list.get_selected_todo(&self.todos)
                } else {
                    self.completed_list.get_selected_todo(&self.todos)
                };
                match sel {
                    Some(idx) => {
                        let title = self.todos_title_at_or_empty(idx);
                        let desc = self.todos_description_at(idx);
                        match &desc {
                            Some(d) => self.preview_modal.open(title.as_str(), Some(d.as_str())),
                            None => self.preview_modal.open(title.as_str(), None),
                        }
                    },
                    None => {},
                }
                Effects::none()
            },
            AppEvent::IncreaseSplit => {
                if self.config.ui.split_ratio < 90 {
                    self.config.ui.split_ratio = self.config.ui.split_ratio + 10;
                    Effects { save_todos: false, save_config: true }
                } else {
                    Effects::none()
                }
            },
            AppEvent::DecreaseSplit => {
                if self.config.ui.split_ratio > 10 {
                    self.config.ui.split_ratio = self.config.ui.split_ratio - 10;
                    Effects { save_todos: false, save_config: true }
                } else {
                    Effects::none()
                }
            },
            AppEvent::Char(c) => {
                if self.config.ui.vim_mode {
                    if self.vim_prefix.is_some() {
                        self.handle_vim_command(c);
                    } else if c == 'a' {
                        let sel = if self.active_pane {
                            self.active_list.get_selected_todo(&self.todos)
                        } else {
                            self.completed_list.get_selected_todo(&self.todos)
                        };
                        match sel {
                            Some(idx) => {
                                let id = self.todos.items[idx].id;
                                proof {
                                    crate::todo::lemma_spec_find(self.todos.items@, id);
                                }
                                self.todos.toggle_expanded(id);
                            },
                            None => {},
                        }
                    } else {
                        self.handle_vim_command(c);
                    }
                }
                Effects::none()
            },
            _ => Effects::none(),
        }
    }

    /// A copy of one entry's description, if it has one.
    fn todos_description_at(&self, idx: usize) -> (r: Option<String>)
        ensures
            idx < self.todos.items@.len() ==> match self.todos.items@[idx as int].description {
                Some(d) => r matches Some(x) && x@ == d@,
                None => r is None,
            },
    {
        if idx < self.todos.items.len() {
            match &self.todos.items[idx].description {
                Some(d) => Some(d.clone()),
                None => None,
            }
        } else {
            None
        }
    }

    /// One event, routed to the first active layer: the confirmation dialog,
    /// then the settings, help and preview overlays, then the editor
    /// overlay, and the base list view last.
    pub fn handle_event(&mut self, event: AppEvent) -> (eff: Effects)
        requires
            old(self).wf(),
            old(self).add_todo_modal.input_handler.spec_room(),
        ensures
            final(self).wf(),
            spec_route(*old(self)) is Confirmation ==> spec_confirmation_outcome(
                *old(self),
                *final(self),
                event,
                eff,
            ),
            spec_route(*old(self)) is Settings ==> spec_settings_outcome(
                *old(self),
                *final(self),
                event,
                eff,
            ),
            spec_route(*old(self)) is Help ==> spec_help_outcome(
                *old(self),
                *final(self),
                event,
                eff,
            ),
            spec_route(*old(self)) is Preview ==> spec_preview_outcome(
                *old(self),
                *final(self),
                event,
                eff,
            ),
            spec_route(*old(self)) is Editor ==> spec_modal_outcome(
                *old(self),
                *final(self),
                event,
                eff,
            ),
            spec_route(*old(self)) is Base ==> spec_normal_outcome(
                *old(self),
                *final(self),
                event,
                eff,
            ),
    {
        if self.confirmation_modal.active {
            self.handle_confirmation_event(event)
        } else if self.settings.active {
            self.handle_settings_event(event)
        } else if self.help_modal.active {
            self.handle_help_event(event)
        } else if self.preview_modal.active {
            self.handle_preview_event(event)
        } else if self.add_todo_modal.active() {
            self.handle_modal_event(event)
        } else {
            self.handle_normal_event(event)
        }
    }


    /// Whether the editor has room for one more character, which
    /// `handle_key` asks of its caller; true for any state a machine can
    /// hold.
    pub fn has_room(&self) -> (r: bool)
        requires
            self.wf(),
        ensures
            r == self.add_todo_modal.input_handler.spec_room(),
    {
        self.add_todo_modal.input_handler.has_room()
    }

    /// One key press: while the vim editor is editing (and no confirmation
    /// is up), keys go to the editor itself except those the application
    /// claims (Escape when the editor would let it close, Tab, BackTab and
    /// the save chords); every other key is converted for the active layer
    /// and routed. A Save command keeps the editor open; SaveAndClose closes
    /// it; Quit closes it only without unsaved changes, else it asks for
    /// confirmation.
    pub fn handle_key(&mut self, key: KeyPress) -> (eff: Effects)
        requires
            old(self).wf(),
            old(self).add_todo_modal.input_handler.spec_room(),
        ensures
            final(self).wf(),
            ({
                let s0 = *old(self);
                let vim_path = s0.add_todo_modal.input_handler.spec_active()
                    && s0.config.ui.vim_mode && !s0.confirmation_modal.active;
                &&& ((!vim_path || spec_app_claims(s0.add_todo_modal, key))
                    ==> match spec_convert_key_event(s0, key) {
                    Some(ev) => match spec_route(s0) {
                        Route::Confirmation => spec_confirmation_outcome(
                            s0,
                            *final(self),
                            ev,
                            eff,
                        ),
                        Route::Settings => spec_settings_outcome(s0, *final(self), ev, eff),
                        Route::Help => spec_help_outcome(s0, *final(self), ev, eff),
                        Route::Preview => spec_preview_outcome(s0, *final(self), ev, eff),
                        Route::Editor => spec_modal_outcome(s0, *final(self), ev, eff),
                        Route::Base => spec_normal_outcome(s0, *final(self), ev, eff),
                    },
                    None => *final(self) == s0 && !eff.save_todos && !eff.save_config,
                })
                &&& ((vim_path && !spec_app_claims(s0.add_todo_modal, key)) ==> ((
                s0.add_todo_modal.input_handler matches InputHandler::Vim(v0)
                    ==> spec_vim_editor_key_outcome(s0, *final(self), v0@, key.code, eff)) && (
                s0.add_todo_modal.input_handler is Normal ==> *final(self) == s0
                    && !eff.save_todos && !eff.save_config)))
            }),
    {
        let vim_editor_active = self.add_todo_modal.active() && self.config.ui.vim_mode
            && !self.confirmation_modal.active;
        if vim_editor_active {
            let handle_normally = match key.code {
                Key::Esc => self.add_todo_modal.should_escape_close_modal(),
                Key::Tab => true,
                Key::BackTab => true,
                Key::Enter => key.ctrl,
                Key::Char(c) => key.ctrl && c == 's',
                _ => false,
            };
            if handle_normally {
                match self.convert_key_event(key) {
                    Some(app_event) => self.handle_event(app_event),
                    None => Effects::none(),
                }
            } else {
                match self.add_todo_modal.handle_key_event(key.code) {
                    Some(VimCommand::Save) => self.save_todo_from_modal(),
                    Some(VimCommand::SaveAndClose) => {
                        let eff = self.save_todo_from_modal();
                        self.add_todo_modal.close();
                        self.editing_todo_id = None;
                        eff
                    },
                    Some(VimCommand::Quit) => {
                        if self.add_todo_modal.has_unsaved_changes() {
                            self.confirmation_modal.open(
                                ConfirmationAction::DiscardUnsavedChanges,
                            );
                        } else {
                            self.add_todo_modal.close();
                            self.editing_todo_id = None;
                        }
                        Effects::none()
                    },
                    None => Effects::none(),
                }
            }
        } else {
            match self.convert_key_event(key) {
                Some(app_event) => self.handle_event(app_event),
                None => Effects::none(),
            }
        }
    }

}

} // verus!
