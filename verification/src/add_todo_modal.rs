//! The editor overlay for adding or editing one entry: the configured
//! editor plus the snapshot taken at open time, from which unsaved changes
//! are computed.

use vstd::prelude::*;

use crate::events::Key;
use crate::input_handler::InputHandler;
use crate::text::spec_trim;
use crate::text::str_to_chars;
use crate::text::trim_chars;
use crate::vim_input::VimCommand;

verus! {

/// The add/edit overlay: an editor and the original values it opened with.
pub struct AddTodoModal {
    pub input_handler: InputHandler,
    pub original_title: String,
    pub original_description: Option<String>,
}

impl AddTodoModal {
    /// Well-formedness of the editor inside.
    pub open spec fn wf(self) -> bool {
        self.input_handler.wf()
    }


    /// Whether the title field is focused.
    pub open spec fn spec_title_focused(self) -> bool {
        match self.input_handler {
            InputHandler::Normal(i) => i.mode is Title,
            InputHandler::Vim(v) => v@.focus is Title,
        }
    }

    /// Whether the overlay holds changes that would be lost on close: the
    /// title differs from the original, or the description (trimmed, an
    /// empty one standing for no description) differs from the original.
    pub open spec fn spec_unsaved(self) -> bool {
        ||| self.input_handler.spec_title() != self.original_title@
        ||| match self.original_description {
            None => self.input_handler.spec_description().len() > 0,
            Some(o) => if self.input_handler.spec_description().len() == 0 {
                spec_trim(o@).len() > 0
            } else {
                self.input_handler.spec_description() != o@
            },
        }
    }

    /// A closed overlay holding the configured editor.
    pub fn new_with_vim_mode(vim_mode: bool) -> (r: AddTodoModal)
        ensures
            r.wf(),
            !r.input_handler.spec_active(),
            r.input_handler is Vim <==> vim_mode,
            r.original_title@.len() == 0,
            r.original_description is None,
    {
        AddTodoModal {
            input_handler: InputHandler::new(vim_mode),
            original_title: String::new(),
            original_description: None,
        }
    }

    /// A closed overlay with the plain editor.
    pub fn new() -> (r: AddTodoModal)
        ensures
            r.wf(),
            !r.input_handler.spec_active(),
            r.input_handler is Normal,
            r.original_title@.len() == 0,
            r.original_description is None,
    {
        AddTodoModal::new_with_vim_mode(false)
    }

    /// Opens the overlay empty, for a new entry.
    pub fn open(&mut self)
        ensures
            final(self).wf(),
            final(self).input_handler.spec_active(),
            final(self).input_handler.spec_title().len() == 0,
            final(self).input_handler.spec_desc_lines() =~= seq![Seq::<char>::empty()],
            final(self).original_title@.len() == 0,
            final(self).original_description is None,
            final(self).input_handler is Vim <==> old(self).input_handler is Vim,
    {
        self.input_handler.open();
        self.original_title = String::new();
        self.original_description = None;
    }

    /// Opens the overlay preloaded with an existing entry and snapshots it.
    pub fn open_with_data(&mut self, title: &str, description: Option<&str>)
        ensures
            final(self).wf(),
            final(self).input_handler.spec_active(),
            final(self).input_handler.spec_title() == title@,
            match description {
                Some(d) => final(self).input_handler.spec_desc_lines()
                    == crate::text::spec_split_lines(d@),
                None => final(self).input_handler.spec_desc_lines() =~= seq![
                    Seq::<char>::empty(),
                ],
            },
            final(self).original_title@ == title@,
            match description {
                Some(d) => final(self).original_description matches Some(o) && o@ == d@,
                None => final(self).original_description is None,
            },
            final(self).input_handler is Vim <==> old(self).input_handler is Vim,
    {
        self.input_handler.open_with_data(title, description);
        self.original_title = title.to_owned();
        self.original_description = match description {
            Some(d) => Some(d.to_owned()),
            None => None,
        };
    }

    /// Closes the overlay; the snapshot and contents stay as they are.
    pub fn close(&mut self)
        ensures
            final(self).wf() == old(self).wf(),
            !final(self).input_handler.spec_active(),
            final(self).input_handler.spec_title() == old(self).input_handler.spec_title(),
            final(self).input_handler.spec_desc_lines() == old(self).input_handler.spec_desc_lines(),
            final(self).original_title == old(self).original_title,
            final(self).original_description == old(self).original_description,
            final(self).input_handler is Vim <==> old(self).input_handler is Vim,
    {
        self.input_handler.close();
    }

    /// Whether the overlay is receiving input.
    pub fn active(&self) -> (r: bool)
        ensures
            r == self.input_handler.spec_active(),
    {
        self.input_handler.is_active()
    }

    /// Whether typing inserts text right now.
    pub fn is_insert_mode(&self) -> (r: bool)
        ensures
            r == true,
    {
        self.input_handler.is_insert_mode()
    }

    /// The current title text.
    pub fn get_title(&self) -> (r: String)
        ensures
            r@ == self.input_handler.spec_title(),
    {
        self.input_handler.get_title()
    }

    /// The description, trimmed; `None` when it is empty.
    pub fn get_description(&self) -> (r: Option<String>)
        requires
            self.wf(),
        ensures
            self.input_handler.spec_description().len() == 0 ==> r is None,
            self.input_handler.spec_description().len() > 0 ==> (r matches Some(s) && s@
                == self.input_handler.spec_description()),
    {
        self.input_handler.get_description()
    }

    /// One decoded key for the vim editor inside.
    pub fn handle_key_event(&mut self, key: Key) -> (r: Option<VimCommand>)
        requires
            old(self).wf(),
            old(self).input_handler.spec_room(),
        ensures
            final(self).wf(),
            final(self).original_title == old(self).original_title,
            final(self).original_description == old(self).original_description,
            final(self).input_handler is Vim <==> old(self).input_handler is Vim,
            old(self).input_handler is Normal ==> final(self).input_handler == old(self).input_handler && r is None,
            (old(self).input_handler matches InputHandler::Vim(v0) ==> (final(self).input_handler matches InputHandler::Vim(v1) && v1@ == crate::vim_input::spec_step(
                v0@,
                key,
            ) && r == crate::vim_input::spec_command_emit(v0@, key))),
    {
        self.input_handler.handle_key_event(key)
    }


    /// Inserts one character at the focused cursor of the editor inside.
    pub fn handle_char(&mut self, c: char)
        requires
            old(self).wf(),
            old(self).input_handler.spec_room(),
        ensures
            final(self).wf(),
            final(self).original_title == old(self).original_title,
            final(self).original_description == old(self).original_description,
            final(self).input_handler is Vim <==> old(self).input_handler is Vim,
            (old(self).input_handler matches InputHandler::Vim(v0) ==> (final(self).input_handler matches InputHandler::Vim(v1) && v1@ == crate::vim_input::spec_step(v0@, crate::events::Key::Char(c)))),
            (old(self).input_handler matches InputHandler::Normal(i0) ==> (final(self).input_handler matches InputHandler::Normal(i1)
                && crate::normal_input::spec_line_editor_key(i0, i1, crate::events::Key::Char(c)))),
    {
        self.input_handler.handle_char(c);
    }

    /// Backspace at the focused cursor of the editor inside.
    pub fn handle_backspace(&mut self)
        requires
            old(self).wf(),
            old(self).input_handler.spec_room(),
        ensures
            final(self).wf(),
            final(self).original_title == old(self).original_title,
            final(self).original_description == old(self).original_description,
            final(self).input_handler is Vim <==> old(self).input_handler is Vim,
            (old(self).input_handler matches InputHandler::Normal(i0) ==> (final(self).input_handler matches InputHandler::Normal(i1)
                && crate::normal_input::spec_line_editor_key(i0, i1, crate::events::Key::Backspace))),
            (old(self).input_handler matches InputHandler::Vim(v0) ==> (final(self).input_handler matches InputHandler::Vim(v1) && v1@ == crate::vim_input::spec_step(v0@, crate::events::Key::Backspace))),
    {
        self.input_handler.handle_backspace();
    }

    /// Enter at the focused cursor of the editor inside.
    pub fn handle_enter(&mut self) -> (r: bool)
        requires
            old(self).wf(),
            old(self).input_handler.spec_room(),
        ensures
            final(self).wf(),
            r == false,
            final(self).original_title == old(self).original_title,
            final(self).original_description == old(self).original_description,
            final(self).input_handler is Vim <==> old(self).input_handler is Vim,
            (old(self).input_handler matches InputHandler::Normal(i0) ==> (final(self).input_handler matches InputHandler::Normal(i1)
                && crate::normal_input::spec_line_editor_key(i0, i1, crate::events::Key::Enter))),
            (old(self).input_handler matches InputHandler::Vim(v0) ==> (final(self).input_handler matches InputHandler::Vim(v1) && v1@ == crate::vim_input::spec_step(v0@, crate::events::Key::Enter))),
    {
        self.input_handler.handle_enter()
    }

    /// Moves the focused cursor left.
    pub fn move_cursor_left(&mut self)
        requires
            old(self).wf(),
            old(self).input_handler.spec_room(),
        ensures
            final(self).wf(),
            final(self).original_title == old(self).original_title,
            final(self).original_description == old(self).original_description,
            final(self).input_handler is Vim <==> old(self).input_handler is Vim,
            (old(self).input_handler matches InputHandler::Normal(i0) ==> (final(self).input_handler matches InputHandler::Normal(i1)
                && crate::normal_input::spec_line_editor_key(i0, i1, crate::events::Key::Left))),
            (old(self).input_handler matches InputHandler::Vim(v0) ==> (final(self).input_handler matches InputHandler::Vim(v1) && v1@ == crate::vim_input::spec_step(v0@, crate::events::Key::Left))),
    {
        self.input_handler.move_cursor_left();
    }

    /// Moves the focused cursor right.
    pub fn move_cursor_right(&mut self)
        requires
            old(self).wf(),
            old(self).input_handler.spec_room(),
        ensures
            final(self).wf(),
            final(self).original_title == old(self).original_title,
            final(self).original_description == old(self).original_description,
            final(self).input_handler is Vim <==> old(self).input_handler is Vim,
            (old(self).input_handler matches InputHandler::Normal(i0) ==> (final(self).input_handler matches InputHandler::Normal(i1)
                && crate::normal_input::spec_line_editor_key(i0, i1, crate::events::Key::Right))),
            (old(self).input_handler matches InputHandler::Vim(v0) ==> (final(self).input_handler matches InputHandler::Vim(v1) && v1@ == crate::vim_input::spec_step(v0@, crate::events::Key::Right))),
    {
        self.input_handler.move_cursor_right();
    }

    /// Moves the focused cursor up one description line.
    pub fn move_cursor_up(&mut self)
        requires
            old(self).wf(),
            old(self).input_handler.spec_room(),
        ensures
            final(self).wf(),
            final(self).original_title == old(self).original_title,
            final(self).original_description == old(self).original_description,
            final(self).input_handler is Vim <==> old(self).input_handler is Vim,
            (old(self).input_handler matches InputHandler::Normal(i0) ==> (final(self).input_handler matches InputHandler::Normal(i1)
                && crate::normal_input::spec_line_editor_key(i0, i1, crate::events::Key::Up))),
            (old(self).input_handler matches InputHandler::Vim(v0) ==> (final(self).input_handler matches InputHandler::Vim(v1) && v1@ == crate::vim_input::spec_step(v0@, crate::events::Key::Up))),
    {
        self.input_handler.move_cursor_up();
    }

    /// Moves the focused cursor down one description line.
    pub fn move_cursor_down(&mut self)
        requires
            old(self).wf(),
            old(self).input_handler.spec_room(),
        ensures
            final(self).wf(),
            final(self).original_title == old(self).original_title,
            final(self).original_description == old(self).original_description,
            final(self).input_handler is Vim <==> old(self).input_handler is Vim,
            (old(self).input_handler matches InputHandler::Normal(i0) ==> (final(self).input_handler matches InputHandler::Normal(i1)
                && crate::normal_input::spec_line_editor_key(i0, i1, crate::events::Key::Down))),
            (old(self).input_handler matches InputHandler::Vim(v0) ==> (final(self).input_handler matches InputHandler::Vim(v1) && v1@ == crate::vim_input::spec_step(v0@, crate::events::Key::Down))),
    {
        self.input_handler.move_cursor_down();
    }

    /// Whether Escape reaching the overlay should be allowed to close it.
    pub fn should_escape_close_modal(&self) -> (r: bool)
        ensures
            self.input_handler is Normal ==> r == true,
            (self.input_handler matches InputHandler::Vim(v) ==> r == (v@.focus is Title
                || v@.vim_mode is Normal)),
    {
        self.input_handler.is_normal_mode()
    }

    /// Whether the overlay holds unsaved changes; see `spec_unsaved`.
    pub fn has_unsaved_changes(&self) -> (r: bool)
        requires
            self.wf(),
        ensures
            r == self.spec_unsaved(),
    {
        let current_title = self.input_handler.get_title();
        if !(current_title == self.original_title.clone()) {
            return true;
        }
        let current_description = self.input_handler.get_description();
        match (&current_description, &self.original_description) {
            (Option::None, Option::None) => false,
            (Option::Some(_), Option::None) => true,
            (Option::None, Option::Some(original)) => {
                let chars = str_to_chars(original.as_str());
                let trimmed = trim_chars(&chars);
                trimmed.len() > 0
            },
            (Option::Some(current), Option::Some(original)) => !(current.clone()
                == original.clone()),
        }
    }

    /// Switches the vim editor's focus to the description.
    pub fn switch_to_description(&mut self)
        ensures
            final(self).wf() == old(self).wf(),
            final(self).original_title == old(self).original_title,
            final(self).original_description == old(self).original_description,
            final(self).input_handler is Vim <==> old(self).input_handler is Vim,
            (old(self).input_handler matches InputHandler::Normal(i0) ==> (final(self).input_handler matches InputHandler::Normal(i1) && i1 == (crate::normal_input::NormalInput {
                mode: crate::normal_input::InputMode::Description,
                ..i0
            }))),
            (old(self).input_handler matches InputHandler::Vim(v0) ==> (final(self).input_handler matches InputHandler::Vim(v1) && v1 == (crate::vim_input::VimInput {
                mode: crate::vim_input::InputMode::Description,
                ..v0
            }))),
    {
        self.input_handler.switch_to_description();
    }

    /// Switches the vim editor's focus to the title.
    pub fn switch_to_title(&mut self)
        ensures
            final(self).wf() == old(self).wf(),
            final(self).original_title == old(self).original_title,
            final(self).original_description == old(self).original_description,
            final(self).input_handler is Vim <==> old(self).input_handler is Vim,
            (old(self).input_handler matches InputHandler::Normal(i0) ==> (final(self).input_handler matches InputHandler::Normal(i1) && i1 == (crate::normal_input::NormalInput {
                mode: crate::normal_input::InputMode::Title,
                ..i0
            }))),
            (old(self).input_handler matches InputHandler::Vim(v0) ==> (final(self).input_handler matches InputHandler::Vim(v1) && v1 == (crate::vim_input::VimInput {
                mode: crate::vim_input::InputMode::Title,
                ..v0
            }))),
    {
        self.input_handler.switch_to_title();
    }

    /// Whether the title is focused.
    pub fn is_in_title_mode(&self) -> (r: bool)
        ensures
            (self.input_handler matches InputHandler::Normal(i) ==> r == (i.mode is Title)),
            (self.input_handler matches InputHandler::Vim(v) ==> r == (v@.focus is Title)),
    {
        self.input_handler.is_in_title_mode()
    }
}

} // verus!
