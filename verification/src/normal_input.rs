//! The plain line editor: a field-switching editor with no modal state.
//! Characters always insert; Enter in the title switches focus to the
//! description, Enter in the description breaks the line.

use vstd::prelude::*;

use crate::text::chars_to_string;
use crate::text::spec_join_lines;
use crate::text::spec_split_lines;
use crate::text::spec_trim;
use crate::text::split_lines;
use crate::text::str_to_chars;
use crate::text::trim_chars;
use crate::text_buffer::TextBuffer;
use crate::text_buffer::spec_backspace;
use crate::text_buffer::spec_insert_char;
use crate::text_buffer::spec_move_down;
use crate::text_buffer::spec_move_left;
use crate::text_buffer::spec_move_right;
use crate::text_buffer::spec_move_up;
use crate::text_buffer::spec_split;

verus! {

/// Which field currently receives character input.
#[derive(Debug, Clone, Copy, PartialEq, Eq, Structural)]
pub enum InputMode {
    Title,
    Description,
}


/// What one editing key does to the plain editor: characters insert at the
/// focused cursor, Backspace deletes before it, Enter switches the focus or
/// breaks the line, and the arrows move. Keys outside this set change
/// nothing through this editor.
pub open spec fn spec_line_editor_key(i0: NormalInput, i1: NormalInput, k: crate::events::Key) -> bool {
    &&& i1.active == i0.active
    &&& i1.is_editing == i0.is_editing
    &&& match k {
        crate::events::Key::Char(c) => i1.mode == i0.mode && (i0.mode is Title ==> i1.title@
            == i0.title@.insert(i0.cursor_position as int, c) && i1.cursor_position
            == i0.cursor_position + 1 && i1.buffer@ == i0.buffer@) && (i0.mode is Description
            ==> i1.buffer@ == spec_insert_char(i0.buffer@, c) && i1.title@ == i0.title@
            && i1.cursor_position == i0.cursor_position),
        crate::events::Key::Backspace => i1.mode == i0.mode && (i0.mode is Title ==> i1.buffer@
            == i0.buffer@ && (if i0.cursor_position > 0 {
            i1.title@ == i0.title@.remove(i0.cursor_position - 1) && i1.cursor_position
                == i0.cursor_position - 1
        } else {
            i1.title@ == i0.title@ && i1.cursor_position == 0
        })) && (i0.mode is Description ==> i1.buffer@ == spec_backspace(i0.buffer@) && i1.title@
            == i0.title@ && i1.cursor_position == i0.cursor_position),
        crate::events::Key::Enter => i1.title@ == i0.title@ && i1.cursor_position
            == i0.cursor_position && i1.mode is Description && (i0.mode is Title ==> i1.buffer@
            == i0.buffer@) && (i0.mode is Description ==> i1.buffer@ == spec_split(i0.buffer@)),
        crate::events::Key::Left => i1.mode == i0.mode && i1.title@ == i0.title@ && (i0.mode
            is Title ==> i1.buffer@ == i0.buffer@ && i1.cursor_position == (if i0.cursor_position
            > 0 {
            i0.cursor_position - 1
        } else {
            0int
        })) && (i0.mode is Description ==> i1.cursor_position == i0.cursor_position && i1.buffer@
            == spec_move_left(i0.buffer@)),
        crate::events::Key::Right => i1.mode == i0.mode && i1.title@ == i0.title@ && (i0.mode
            is Title ==> i1.buffer@ == i0.buffer@ && i1.cursor_position == (if i0.cursor_position
            < i0.title@.len() {
            i0.cursor_position + 1
        } else {
            i0.cursor_position as int
        })) && (i0.mode is Description ==> i1.cursor_position == i0.cursor_position && i1.buffer@
            == spec_move_right(i0.buffer@)),
        crate::events::Key::Up => i1.mode == i0.mode && i1.title@ == i0.title@
            && i1.cursor_position == i0.cursor_position && (i0.mode is Title ==> i1.buffer@
            == i0.buffer@) && (i0.mode is Description ==> i1.buffer@ == spec_move_up(i0.buffer@)),
        crate::events::Key::Down => i1.mode == i0.mode && i1.title@ == i0.title@
            && i1.cursor_position == i0.cursor_position && (i0.mode is Title ==> i1.buffer@
            == i0.buffer@) && (i0.mode is Description ==> i1.buffer@ == spec_move_down(
            i0.buffer@,
        )),
        _ => i1 == i0,
    }
}

/// The plain editor: a one-line title with its own cursor, and a multi-line
/// description buffer.
pub struct NormalInput {
    pub active: bool,
    pub title: Vec<char>,
    pub cursor_position: usize,
    pub mode: InputMode,
    pub buffer: TextBuffer,
    pub is_editing: bool,
}

impl NormalInput {
    /// Well-formedness: the title cursor stays inside the title and the
    /// description buffer is well formed.
    pub open spec fn wf(self) -> bool {
        &&& self.cursor_position <= self.title@.len()
        &&& self.buffer@.wf()
    }

    /// The description the editor would hand back: the joined lines, with
    /// surrounding whitespace removed; nothing when that is empty.
    pub open spec fn description_view(self) -> Seq<char> {
        spec_trim(spec_join_lines(self.buffer@.lines))
    }

    /// A closed, inactive editor with empty fields.
    pub fn new() -> (r: NormalInput)
        ensures
            r.wf(),
            !r.active,
            r.title@.len() == 0,
            r.cursor_position == 0,
            r.mode is Title,
            r.buffer@.lines =~= seq![Seq::<char>::empty()],
            !r.is_editing,
    {
        NormalInput {
            active: false,
            title: Vec::new(),
            cursor_position: 0,
            mode: InputMode::Title,
            buffer: TextBuffer::new(),
            is_editing: false,
        }
    }

    /// Opens the editor empty, focused on the title, for a new entry.
    pub fn open(&mut self)
        ensures
            final(self).wf(),
            final(self).active,
            final(self).title@.len() == 0,
            final(self).cursor_position == 0,
            final(self).mode is Title,
            final(self).buffer@.lines =~= seq![Seq::<char>::empty()],
            !final(self).is_editing,
    {
        self.active = true;
        self.title = Vec::new();
        self.cursor_position = 0;
        self.mode = InputMode::Title;
        self.buffer = TextBuffer::new();
        self.is_editing = false;
    }

    /// Opens the editor preloaded with an existing entry: the title cursor
    /// sits at the end of the title, focus on the title.
    pub fn open_with_data(&mut self, title: &str, description: Option<&str>)
        ensures
            final(self).wf(),
            final(self).active,
            final(self).title@ == title@,
            final(self).cursor_position == title@.len(),
            final(self).mode is Title,
            match description {
                Some(d) => final(self).buffer@.lines == spec_split_lines(d@),
                None => final(self).buffer@.lines =~= seq![Seq::<char>::empty()],
            },
            final(self).buffer@.line == 0 && final(self).buffer@.col == 0,
            final(self).is_editing,
    {
        self.active = true;
        self.title = str_to_chars(title);
        self.cursor_position = self.title.len();
        match description {
            Some(d) => {
                let chars = str_to_chars(d);
                let lines = split_lines(&chars);
                self.buffer = TextBuffer::from_lines(lines);
            },
            None => {
                self.buffer = TextBuffer::new();
            },
        }
        self.mode = InputMode::Title;
        self.is_editing = true;
    }

    /// Closes the editor; its contents stay as they are.
    pub fn close(&mut self)
        ensures
            *final(self) == (NormalInput { active: false, ..*old(self) }),
    {
        self.active = false;
    }

    /// Inserts a character at the focused field's cursor.
    pub fn handle_char(&mut self, c: char)
        requires
            old(self).wf(),
            old(self).mode is Title ==> old(self).title@.len() < usize::MAX,
            old(self).mode is Description ==> old(self).buffer@.cur().len() < usize::MAX,
        ensures
            final(self).wf(),
            final(self).active == old(self).active,
            final(self).mode == old(self).mode,
            final(self).is_editing == old(self).is_editing,
            old(self).mode is Title ==> final(self).title@ == old(self).title@.insert(
                old(self).cursor_position as int,
                c,
            ) && final(self).cursor_position == old(self).cursor_position + 1 && final(self).buffer@ == old(self).buffer@,
            old(self).mode is Description ==> final(self).buffer@ == spec_insert_char(
                old(self).buffer@,
                c,
            ) && final(self).title@ == old(self).title@ && final(self).cursor_position == old(self).cursor_position,
    {
        match self.mode {
            InputMode::Title => {
                self.title.insert(self.cursor_position, c);
                self.cursor_position = self.cursor_position + 1;
            },
            InputMode::Description => {
                self.buffer.insert_char(c);
            },
        }
    }

    /// Backspace in the focused field: in the title it removes the character
    /// before the cursor (a no-op at the start); in the description it is
    /// the buffer's backspace, which joins lines at a line start.
    pub fn handle_backspace(&mut self)
        requires
            old(self).wf(),
        ensures
            final(self).wf(),
            final(self).active == old(self).active,
            final(self).mode == old(self).mode,
            final(self).is_editing == old(self).is_editing,
            old(self).mode is Title ==> final(self).buffer@ == old(self).buffer@ && (if old(self).cursor_position > 0 {
                final(self).title@ == old(self).title@.remove(old(self).cursor_position - 1)
                    && final(self).cursor_position == old(self).cursor_position - 1
            } else {
                final(self).title@ == old(self).title@ && final(self).cursor_position == 0
            }),
            old(self).mode is Description ==> final(self).buffer@ == spec_backspace(
                old(self).buffer@,
            ) && final(self).title@ == old(self).title@ && final(self).cursor_position == old(self).cursor_position,
    {
        match self.mode {
            InputMode::Title => {
                if self.cursor_position > 0 {
                    self.cursor_position = self.cursor_position - 1;
                    self.title.remove(self.cursor_position);
                }
            },
            InputMode::Description => {
                self.buffer.delete_before_cursor();
            },
        }
    }

    /// Enter: in the title it switches focus to the description without
    /// inserting anything; in the description it breaks the line at the
    /// cursor. Never requests a close.
    pub fn handle_enter(&mut self) -> (r: bool)
        requires
            old(self).wf(),
        ensures
            final(self).wf(),
            r == false,
            final(self).active == old(self).active,
            final(self).title@ == old(self).title@,
            final(self).cursor_position == old(self).cursor_position,
            final(self).is_editing == old(self).is_editing,
            old(self).mode is Title ==> final(self).mode is Description && final(self).buffer@
                == old(self).buffer@,
            old(self).mode is Description ==> final(self).mode is Description && final(self).buffer@ == spec_split(old(self).buffer@),
    {
        match self.mode {
            InputMode::Title => {
                self.mode = InputMode::Description;
                false
            },
            InputMode::Description => {
                self.buffer.split_at_cursor();
                false
            },
        }
    }

    /// Moves the focused cursor left; in the description this wraps to the
    /// previous line's end exactly once at a line start.
    pub fn move_cursor_left(&mut self)
        requires
            old(self).wf(),
        ensures
            final(self).wf(),
            final(self).active == old(self).active,
            final(self).mode == old(self).mode,
            final(self).title@ == old(self).title@,
            final(self).is_editing == old(self).is_editing,
            old(self).mode is Title ==> final(self).buffer@ == old(self).buffer@ && final(self).cursor_position == (if old(self).cursor_position > 0 {
                old(self).cursor_position - 1
            } else {
                0int
            }),
            old(self).mode is Description ==> final(self).cursor_position == old(self).cursor_position && final(self).buffer@ == spec_move_left(old(self).buffer@),
    {
        match self.mode {
            InputMode::Title => {
                if self.cursor_position > 0 {
                    self.cursor_position = self.cursor_position - 1;
                }
            },
            InputMode::Description => {
                self.buffer.move_left();
            },
        }
    }

    /// Moves the focused cursor right; in the description this wraps to the
    /// next line's start exactly once at a line end.
    pub fn move_cursor_right(&mut self)
        requires
            old(self).wf(),
        ensures
            final(self).wf(),
            final(self).active == old(self).active,
            final(self).mode == old(self).mode,
            final(self).title@ == old(self).title@,
            final(self).is_editing == old(self).is_editing,
            old(self).mode is Title ==> final(self).buffer@ == old(self).buffer@ && final(self).cursor_position == (if old(self).cursor_position < old(self).title@.len() {
                old(self).cursor_position + 1
            } else {
                old(self).cursor_position as int
            }),
            old(self).mode is Description ==> final(self).cursor_position == old(self).cursor_position && final(self).buffer@ == spec_move_right(old(self).buffer@),
    {
        match self.mode {
            InputMode::Title => {
                if self.cursor_position < self.title.len() {
                    self.cursor_position = self.cursor_position + 1;
                }
            },
            InputMode::Description => {
                self.buffer.move_right();
            },
        }
    }

    /// Moves up one description line (clamping the column); a no-op while
    /// the title is focused.
    pub fn move_cursor_up(&mut self)
        requires
            old(self).wf(),
        ensures
            final(self).wf(),
            final(self).active == old(self).active,
            final(self).mode == old(self).mode,
            final(self).title@ == old(self).title@,
            final(self).cursor_position == old(self).cursor_position,
            final(self).is_editing == old(self).is_editing,
            old(self).mode is Title ==> final(self).buffer@ == old(self).buffer@,
            old(self).mode is Description ==> final(self).buffer@ == spec_move_up(
                old(self).buffer@,
            ),
    {
        if matches!(self.mode, InputMode::Description) {
            self.buffer.move_up();
        }
    }

    /// Moves down one description line (clamping the column); a no-op while
    /// the title is focused.
    pub fn move_cursor_down(&mut self)
        requires
            old(self).wf(),
        ensures
            final(self).wf(),
            final(self).active == old(self).active,
            final(self).mode == old(self).mode,
            final(self).title@ == old(self).title@,
            final(self).cursor_position == old(self).cursor_position,
            final(self).is_editing == old(self).is_editing,
            old(self).mode is Title ==> final(self).buffer@ == old(self).buffer@,
            old(self).mode is Description ==> final(self).buffer@ == spec_move_down(
                old(self).buffer@,
            ),
    {
        if matches!(self.mode, InputMode::Description) {
            self.buffer.move_down();
        }
    }


    /// Switches focus to the description.
    pub fn switch_to_description(&mut self)
        ensures
            *final(self) == (NormalInput { mode: InputMode::Description, ..*old(self) }),
    {
        self.mode = InputMode::Description;
    }

    /// Switches focus to the title.
    pub fn switch_to_title(&mut self)
        ensures
            *final(self) == (NormalInput { mode: InputMode::Title, ..*old(self) }),
    {
        self.mode = InputMode::Title;
    }

    /// The current title text.
    pub fn get_title(&self) -> (r: String)
        ensures
            r@ == self.title@,
    {
        chars_to_string(&self.title)
    }

    /// The description, trimmed; `None` when it is empty.
    pub fn get_description(&self) -> (r: Option<String>)
        requires
            self.wf(),
        ensures
            self.description_view().len() == 0 ==> r is None,
            self.description_view().len() > 0 ==> (r matches Some(s) && s@
                == self.description_view()),
    {
        let joined = self.buffer.all_text();
        let trimmed = trim_chars(&joined);
        if trimmed.len() == 0 {
            None
        } else {
            Some(chars_to_string(&trimmed))
        }
    }
}

} // verus!
