//! The facade over the two concrete editors: the application sees one
//! capability set whichever editor the configuration selected.

use vstd::prelude::*;

use crate::events::Key;
use crate::normal_input::NormalInput;
use crate::text::spec_split_lines;
use crate::vim_input::VimCommand;
use crate::vim_input::VimInput;
use crate::vim_input::spec_command_emit;
use crate::vim_input::spec_step;

verus! {

/// The configured editor: plain or vim-style.
pub enum InputHandler {
    Normal(NormalInput),
    Vim(VimInput),
}

impl InputHandler {
    /// Well-formedness of whichever editor is configured.
    pub open spec fn wf(self) -> bool {
        match self {
            InputHandler::Normal(i) => i.wf(),
            InputHandler::Vim(i) => i.wf(),
        }
    }

    /// Whether the editor overlay is receiving input.
    pub open spec fn spec_active(self) -> bool {
        match self {
            InputHandler::Normal(i) => i.active,
            InputHandler::Vim(i) => i.active,
        }
    }

    /// The current title text.
    pub open spec fn spec_title(self) -> Seq<char> {
        match self {
            InputHandler::Normal(i) => i.title@,
            InputHandler::Vim(i) => i.title@,
        }
    }

    /// The description's lines.
    pub open spec fn spec_desc_lines(self) -> Seq<Seq<char>> {
        match self {
            InputHandler::Normal(i) => i.buffer@.lines,
            InputHandler::Vim(i) => i.buffer@.lines,
        }
    }

    /// The description the editor would hand back: joined and trimmed.
    pub open spec fn spec_description(self) -> Seq<char> {
        crate::text::spec_trim(crate::text::spec_join_lines(self.spec_desc_lines()))
    }

    /// A closed editor of the configured kind.
    pub fn new(vim_mode: bool) -> (r: InputHandler)
        ensures
            r.wf(),
            !r.spec_active(),
            r.spec_title().len() == 0,
            r.spec_desc_lines() =~= seq![Seq::<char>::empty()],
            vim_mode <==> r is Vim,
    {
        if vim_mode {
            InputHandler::Vim(VimInput::new())
        } else {
            InputHandler::Normal(NormalInput::new())
        }
    }

    /// Whether the editor overlay is active.
    pub fn is_active(&self) -> (r: bool)
        ensures
            r == self.spec_active(),
    {
        match self {
            InputHandler::Normal(input) => input.active,
            InputHandler::Vim(input) => input.active,
        }
    }

    /// Opens the editor empty for a new entry.
    pub fn open(&mut self)
        ensures
            final(self).wf(),
            final(self).spec_active(),
            final(self).spec_title().len() == 0,
            final(self).spec_desc_lines() =~= seq![Seq::<char>::empty()],
            *final(self) is Vim <==> *old(self) is Vim,
    {
        match self {
            InputHandler::Normal(input) => input.open(),
            InputHandler::Vim(input) => input.open(),
        }
    }

    /// Opens the editor preloaded with an existing entry.
    pub fn open_with_data(&mut self, title: &str, description: Option<&str>)
        ensures
            final(self).wf(),
            final(self).spec_active(),
            final(self).spec_title() == title@,
            match description {
                Some(d) => final(self).spec_desc_lines() == spec_split_lines(d@),
                None => final(self).spec_desc_lines() =~= seq![Seq::<char>::empty()],
            },
            *final(self) is Vim <==> *old(self) is Vim,
    {
        match self {
            InputHandler::Normal(input) => input.open_with_data(title, description),
            InputHandler::Vim(input) => input.open_with_data(title, description),
        }
    }

    /// Closes the editor; its contents stay as they are.
    pub fn close(&mut self)
        ensures
            final(self).wf() == old(self).wf(),
            !final(self).spec_active(),
            final(self).spec_title() == old(self).spec_title(),
            final(self).spec_desc_lines() == old(self).spec_desc_lines(),
            *final(self) is Vim <==> *old(self) is Vim,
    {
        match self {
            InputHandler::Normal(input) => input.close(),
            InputHandler::Vim(input) => input.close(),
        }
    }

    /// The current title text.
    pub fn get_title(&self) -> (r: String)
        ensures
            r@ == self.spec_title(),
    {
        match self {
            InputHandler::Normal(input) => input.get_title(),
            InputHandler::Vim(input) => input.get_title(),
        }
    }

    /// The description, trimmed; `None` when it is empty.
    pub fn get_description(&self) -> (r: Option<String>)
        requires
            self.wf(),
        ensures
            self.spec_description().len() == 0 ==> r is None,
            self.spec_description().len() > 0 ==> (r matches Some(s) && s@
                == self.spec_description()),
    {
        match self {
            InputHandler::Normal(input) => input.get_description(),
            InputHandler::Vim(input) => input.get_description(),
        }
    }

    /// Whether typing inserts text right now: the plain editor always does;
    /// the vim editor reports itself typing-ready as a whole.
    pub fn is_insert_mode(&self) -> (r: bool)
        ensures
            r == true,
    {
        match self {
            InputHandler::Normal(_) => true,
            InputHandler::Vim(input) => input.is_insert_mode(),
        }
    }

    /// The vim mode label to display; nothing for the plain editor.
    pub fn get_vim_mode_display(&self) -> (r: Option<&'static str>)
        ensures
            (*self) is Normal ==> r is None,
            (*self) is Vim ==> r is Some,
    {
        match self {
            InputHandler::Normal(_) => None,
            InputHandler::Vim(input) => Some(input.get_vim_mode_display()),
        }
    }


    /// Room for one more character wherever the cursor sits: a machine
    /// limit, not a rule of the editors.
    pub open spec fn spec_room(self) -> bool {
        &&& self.spec_title().len() < usize::MAX
        &&& match self {
            InputHandler::Normal(i) => i.buffer@.cur().len() < usize::MAX,
            InputHandler::Vim(i) => i.buffer@.cur().len() < usize::MAX,
        }
    }


    /// Whether there is room for one more character wherever the cursor
    /// sits; see `spec_room`. True for any state a machine can hold.
    pub fn has_room(&self) -> (r: bool)
        requires
            self.wf(),
        ensures
            r == self.spec_room(),
    {
        match self {
            InputHandler::Normal(i) => i.title.len() < usize::MAX && i.buffer.cur_line_len()
                < usize::MAX,
            InputHandler::Vim(i) => i.title.len() < usize::MAX && i.buffer.cur_line_len()
                < usize::MAX,
        }
    }

    /// Inserts one character at the focused cursor. The plain editor takes
    /// it directly; the vim editor takes it as a key of its state machine
    /// (a character key emits no control command).
    pub fn handle_char(&mut self, c: char)
        requires
            old(self).wf(),
            old(self).spec_room(),
        ensures
            final(self).wf(),
            (*final(self)) is Vim <==> (*old(self)) is Vim,
            ((*old(self)) matches InputHandler::Normal(i0) ==> ((*final(self)) matches InputHandler::Normal(i1)
                && crate::normal_input::spec_line_editor_key(i0, i1, Key::Char(c)))),
            ((*old(self)) matches InputHandler::Vim(v0) ==> ((*final(self)) matches InputHandler::Vim(v1) && v1@ == spec_step(v0@, Key::Char(c)))),
    {
        match self {
            InputHandler::Normal(input) => input.handle_char(c),
            InputHandler::Vim(input) => {
                input.handle_key_event(Key::Char(c));
            },
        }
    }

    /// Backspace at the focused cursor.
    pub fn handle_backspace(&mut self)
        requires
            old(self).wf(),
            old(self).spec_room(),
        ensures
            final(self).wf(),
            (*final(self)) is Vim <==> (*old(self)) is Vim,
            ((*old(self)) matches InputHandler::Normal(i0) ==> ((*final(self)) matches InputHandler::Normal(i1)
                && crate::normal_input::spec_line_editor_key(i0, i1, Key::Backspace))),
            ((*old(self)) matches InputHandler::Vim(v0) ==> ((*final(self)) matches InputHandler::Vim(v1) && v1@ == spec_step(v0@, Key::Backspace))),
    {
        match self {
            InputHandler::Normal(input) => input.handle_backspace(),
            InputHandler::Vim(input) => {
                input.handle_key_event(Key::Backspace);
            },
        }
    }

    /// Enter at the focused cursor: in the title it switches focus, in the
    /// description it breaks the line. Only the vim editor's command line
    /// could turn Enter into a control command, and the router feeds that
    /// editor through `handle_key_event` instead; any command is discarded
    /// here.
    pub fn handle_enter(&mut self) -> (r: bool)
        requires
            old(self).wf(),
            old(self).spec_room(),
        ensures
            final(self).wf(),
            r == false,
            (*final(self)) is Vim <==> (*old(self)) is Vim,
            ((*old(self)) matches InputHandler::Normal(i0) ==> ((*final(self)) matches InputHandler::Normal(i1)
                && crate::normal_input::spec_line_editor_key(i0, i1, Key::Enter))),
            ((*old(self)) matches InputHandler::Vim(v0) ==> ((*final(self)) matches InputHandler::Vim(v1) && v1@ == spec_step(v0@, Key::Enter))),
    {
        match self {
            InputHandler::Normal(input) => input.handle_enter(),
            InputHandler::Vim(input) => {
                input.handle_key_event(Key::Enter);
                false
            },
        }
    }

    /// Moves the focused cursor left.
    pub fn move_cursor_left(&mut self)
        requires
            old(self).wf(),
            old(self).spec_room(),
        ensures
            final(self).wf(),
            (*final(self)) is Vim <==> (*old(self)) is Vim,
            ((*old(self)) matches InputHandler::Normal(i0) ==> ((*final(self)) matches InputHandler::Normal(i1)
                && crate::normal_input::spec_line_editor_key(i0, i1, Key::Left))),
            ((*old(self)) matches InputHandler::Vim(v0) ==> ((*final(self)) matches InputHandler::Vim(v1) && v1@ == spec_step(v0@, Key::Left))),
    {
        match self {
            InputHandler::Normal(input) => input.move_cursor_left(),
            InputHandler::Vim(input) => {
                input.handle_key_event(Key::Left);
            },
        }
    }

    /// Moves the focused cursor right.
    pub fn move_cursor_right(&mut self)
        requires
            old(self).wf(),
            old(self).spec_room(),
        ensures
            final(self).wf(),
            (*final(self)) is Vim <==> (*old(self)) is Vim,
            ((*old(self)) matches InputHandler::Normal(i0) ==> ((*final(self)) matches InputHandler::Normal(i1)
                && crate::normal_input::spec_line_editor_key(i0, i1, Key::Right))),
            ((*old(self)) matches InputHandler::Vim(v0) ==> ((*final(self)) matches InputHandler::Vim(v1) && v1@ == spec_step(v0@, Key::Right))),
    {
        match self {
            InputHandler::Normal(input) => input.move_cursor_right(),
            InputHandler::Vim(input) => {
                input.handle_key_event(Key::Right);
            },
        }
    }

    /// Moves the focused cursor up one description line.
    pub fn move_cursor_up(&mut self)
        requires
            old(self).wf(),
            old(self).spec_room(),
        ensures
            final(self).wf(),
            (*final(self)) is Vim <==> (*old(self)) is Vim,
            ((*old(self)) matches InputHandler::Normal(i0) ==> ((*final(self)) matches InputHandler::Normal(i1)
                && crate::normal_input::spec_line_editor_key(i0, i1, Key::Up))),
            ((*old(self)) matches InputHandler::Vim(v0) ==> ((*final(self)) matches InputHandler::Vim(v1) && v1@ == spec_step(v0@, Key::Up))),
    {
        match self {
            InputHandler::Normal(input) => input.move_cursor_up(),
            InputHandler::Vim(input) => {
                input.handle_key_event(Key::Up);
            },
        }
    }

    /// Moves the focused cursor down one description line.
    pub fn move_cursor_down(&mut self)
        requires
            old(self).wf(),
            old(self).spec_room(),
        ensures
            final(self).wf(),
            (*final(self)) is Vim <==> (*old(self)) is Vim,
            ((*old(self)) matches InputHandler::Normal(i0) ==> ((*final(self)) matches InputHandler::Normal(i1)
                && crate::normal_input::spec_line_editor_key(i0, i1, Key::Down))),
            ((*old(self)) matches InputHandler::Vim(v0) ==> ((*final(self)) matches InputHandler::Vim(v1) && v1@ == spec_step(v0@, Key::Down))),
    {
        match self {
            InputHandler::Normal(input) => input.move_cursor_down(),
            InputHandler::Vim(input) => {
                input.handle_key_event(Key::Down);
            },
        }
    }

    /// One decoded key for the vim editor; the plain editor takes its keys
    /// through the router's events instead and is left unchanged here.
    pub fn handle_key_event(&mut self, key: Key) -> (r: Option<VimCommand>)
        requires
            old(self).wf(),
            old(self).spec_room(),
        ensures
            final(self).wf(),
            *final(self) is Vim <==> *old(self) is Vim,
            *old(self) is Normal ==> *final(self) == *old(self) && r is None,
            ((*old(self)) matches InputHandler::Vim(v0) ==> ((*final(self)) matches InputHandler::Vim(
                v1,
            ) && v1@ == spec_step(v0@, key) && r == spec_command_emit(v0@, key))),
    {
        match self {
            InputHandler::Normal(_) => None,
            InputHandler::Vim(input) => input.handle_key_event(key),
        }
    }

    /// Whether Escape reaching the editor should be allowed to close the
    /// whole overlay: always for the plain editor and for the vim editor's
    /// title field; in the description only from Normal mode.
    pub fn is_normal_mode(&self) -> (r: bool)
        ensures
            (*self) is Normal ==> r == true,
            ((*self) matches InputHandler::Vim(v) ==> r == (v@.focus is Title || v@.vim_mode
                is Normal)),
    {
        match self {
            InputHandler::Normal(_) => true,
            InputHandler::Vim(input) => {
                if input.is_in_title_mode() {
                    true
                } else {
                    input.is_normal_mode()
                }
            },
        }
    }

    /// Switches the focused field to the description.
    pub fn switch_to_description(&mut self)
        ensures
            final(self).wf() == old(self).wf(),
            *final(self) is Vim <==> *old(self) is Vim,
            ((*old(self)) matches InputHandler::Normal(i0) ==> ((*final(self)) matches InputHandler::Normal(
                i1,
            ) && i1 == (NormalInput { mode: crate::normal_input::InputMode::Description, ..i0 }))),
            ((*old(self)) matches InputHandler::Vim(v0) ==> ((*final(self)) matches InputHandler::Vim(
                v1,
            ) && v1 == (VimInput { mode: crate::vim_input::InputMode::Description, ..v0 }))),
    {
        match self {
            InputHandler::Normal(input) => input.switch_to_description(),
            InputHandler::Vim(input) => input.switch_to_description(),
        }
    }

    /// Switches the focused field to the title.
    pub fn switch_to_title(&mut self)
        ensures
            final(self).wf() == old(self).wf(),
            *final(self) is Vim <==> *old(self) is Vim,
            ((*old(self)) matches InputHandler::Normal(i0) ==> ((*final(self)) matches InputHandler::Normal(
                i1,
            ) && i1 == (NormalInput { mode: crate::normal_input::InputMode::Title, ..i0 }))),
            ((*old(self)) matches InputHandler::Vim(v0) ==> ((*final(self)) matches InputHandler::Vim(
                v1,
            ) && v1 == (VimInput { mode: crate::vim_input::InputMode::Title, ..v0 }))),
    {
        match self {
            InputHandler::Normal(input) => input.switch_to_title(),
            InputHandler::Vim(input) => input.switch_to_title(),
        }
    }


    /// The text of the last unrecognized command line, if the last command
    /// line was one; the plain editor has no command line.
    pub fn get_unknown_command(&self) -> (r: Option<String>)
        ensures
            (*self) is Normal ==> r is None,
            ((*self) matches InputHandler::Vim(v) ==> match v@.unknown {
                Some(u) => (r matches Some(x) && x@ == u),
                None => r is None,
            }),
    {
        match self {
            InputHandler::Normal(_) => None,
            InputHandler::Vim(input) => input.get_unknown_command(),
        }
    }

    /// Whether the vim editor's command line is capturing keys; the plain
    /// editor has no command mode.
    pub fn is_command_mode(&self) -> (r: bool)
        ensures
            (*self) is Normal ==> r == false,
            ((*self) matches InputHandler::Vim(v) ==> r == (v@.focus is Description && v@.vim_mode
                is Command)),
    {
        match self {
            InputHandler::Normal(_) => false,
            InputHandler::Vim(input) => {
                if input.is_in_title_mode() {
                    false
                } else {
                    input.is_command_mode()
                }
            },
        }
    }

    /// Whether the title is focused.
    pub fn is_in_title_mode(&self) -> (r: bool)
        ensures
            ((*self) matches InputHandler::Normal(i) ==> r == (i.mode is Title)),
            ((*self) matches InputHandler::Vim(v) ==> r == (v@.focus is Title)),
    {
        match self {
            InputHandler::Normal(input) => matches!(input.mode, crate::normal_input::InputMode::Title),
            InputHandler::Vim(input) => input.is_in_title_mode(),
        }
    }
}

} // verus!
