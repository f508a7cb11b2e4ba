//! The vim-style modal editor: a mode state machine over a title field and a
//! description buffer, with motions, line operations, a one-line register,
//! and a command-line parser. The title is always a flat insert field; only
//! the description is modal.
//!
//! The whole machine is specified by `spec_step` (the next state) and
//! `spec_command_emit` (the control command a key produces, if any);
//! `handle_key_event` is proved to follow both.

use vstd::prelude::*;

use crate::events::Key;
use crate::text::chars_to_string;
use crate::text::chars_equal;
use crate::text::spec_join_lines;
use crate::text::spec_split_lines;
use crate::text::spec_trim;
use crate::text::split_lines;
use crate::text::str_to_chars;
use crate::text::trim_chars;
use crate::text_buffer::BufView;
use crate::text_buffer::TextBuffer;
use crate::text_buffer::spec_backspace;
use crate::text_buffer::spec_delete_line;
use crate::text_buffer::spec_goto_first;
use crate::text_buffer::spec_goto_last;
use crate::text_buffer::spec_insert_char;
use crate::text_buffer::spec_line_end;
use crate::text_buffer::spec_line_start;
use crate::text_buffer::spec_move_down;
use crate::text_buffer::spec_move_left;
use crate::text_buffer::spec_move_right;
use crate::text_buffer::spec_move_right_in_line;
use crate::text_buffer::spec_move_up;
use crate::text_buffer::spec_paste_after;
use crate::text_buffer::spec_split;
use crate::text_buffer::spec_word_backward_buf;
use crate::text_buffer::spec_word_forward_buf;

verus! {

/// Which field currently receives input.
#[derive(Debug, Clone, Copy, PartialEq, Eq, Structural)]
pub enum InputMode {
    Title,
    Description,
}

/// The description's editing mode.
#[derive(Debug, Clone, Copy, PartialEq, Eq, Structural)]
pub enum VimMode {
    Normal,
    Insert,
    Visual,
    VisualLine,
    VisualBlock,
    Command,
}

/// A control command the editor hands up to the application.
#[derive(Debug, Clone, Copy, PartialEq, Eq, Structural)]
pub enum VimCommand {
    Save,
    SaveAndClose,
    Quit,
}

/// The outcome of parsing one command line.
#[derive(Debug, Clone, Copy, PartialEq, Eq, Structural)]
pub enum ParsedCommand {
    Save,
    SaveAndClose,
    Quit,
    Empty,
    Unrecognized,
}

/// The command grammar: exact match, after trimming, against a fixed
/// vocabulary. `w`/`write` save, `x`/`wq` save and close, `q`/`quit` quit;
/// a blank line is a no-op; anything else is unrecognized.
pub open spec fn spec_parse_command(cmd: Seq<char>) -> ParsedCommand {
    let t = spec_trim(cmd);
    if t == seq!['w'] || t == seq!['w', 'r', 'i', 't', 'e'] {
        ParsedCommand::Save
    } else if t == seq!['x'] || t == seq!['w', 'q'] {
        ParsedCommand::SaveAndClose
    } else if t == seq!['q'] || t == seq!['q', 'u', 'i', 't'] {
        ParsedCommand::Quit
    } else if t.len() == 0 {
        ParsedCommand::Empty
    } else {
        ParsedCommand::Unrecognized
    }
}

/// Parses one command line; see `spec_parse_command`.
pub fn parse_command(cmd: &Vec<char>) -> (r: ParsedCommand)
    ensures
        r == spec_parse_command(cmd@),
{
    let t = trim_chars(cmd);
    let pat_w: Vec<char> = vec!['w'];
    let pat_write: Vec<char> = vec!['w', 'r', 'i', 't', 'e'];
    let pat_x: Vec<char> = vec!['x'];
    let pat_wq: Vec<char> = vec!['w', 'q'];
    let pat_q: Vec<char> = vec!['q'];
    let pat_quit: Vec<char> = vec!['q', 'u', 'i', 't'];
    proof {
        assert(pat_w@ =~= seq!['w']);
        assert(pat_write@ =~= seq!['w', 'r', 'i', 't', 'e']);
        assert(pat_x@ =~= seq!['x']);
        assert(pat_wq@ =~= seq!['w', 'q']);
        assert(pat_q@ =~= seq!['q']);
        assert(pat_quit@ =~= seq!['q', 'u', 'i', 't']);
    }
    if chars_equal(&t, &pat_w) || chars_equal(&t, &pat_write) {
        ParsedCommand::Save
    } else if chars_equal(&t, &pat_x) || chars_equal(&t, &pat_wq) {
        ParsedCommand::SaveAndClose
    } else if chars_equal(&t, &pat_q) || chars_equal(&t, &pat_quit) {
        ParsedCommand::Quit
    } else if t.len() == 0 {
        ParsedCommand::Empty
    } else {
        ParsedCommand::Unrecognized
    }
}

/// Mathematical model of the whole editor.
#[verifier::ext_equal]
pub struct VimView {
    pub active: bool,
    pub title: Seq<char>,
    pub cursor: int,
    pub focus: InputMode,
    pub is_editing: bool,
    pub vim_mode: VimMode,
    pub command: Seq<char>,
    pub pending: Option<char>,
    pub register: Option<Seq<char>>,
    pub anchor_line: int,
    pub anchor_col: int,
    pub buf: BufView,
    pub unknown: Option<Seq<char>>,
}

/// A key while the title is focused: a flat insert field. Enter moves focus
/// to the description; everything modal is bypassed.
pub open spec fn spec_step_title(v: VimView, key: Key) -> VimView {
    match key {
        Key::Char(c) => VimView {
            title: v.title.insert(v.cursor, c),
            cursor: v.cursor + 1,
            ..v
        },
        Key::Backspace => if v.cursor > 0 {
            VimView { title: v.title.remove(v.cursor - 1), cursor: v.cursor - 1, ..v }
        } else {
            v
        },
        Key::Left => if v.cursor > 0 {
            VimView { cursor: v.cursor - 1, ..v }
        } else {
            v
        },
        Key::Right => if v.cursor < v.title.len() {
            VimView { cursor: v.cursor + 1, ..v }
        } else {
            v
        },
        Key::Enter => VimView { focus: InputMode::Description, ..v },
        _ => v,
    }
}

/// A key in Insert mode: characters insert, Enter breaks the line, Escape
/// steps back to Normal; the arrows move.
pub open spec fn spec_step_insert(v: VimView, key: Key) -> VimView {
    match key {
        Key::Esc => VimView { vim_mode: VimMode::Normal, ..v },
        Key::Char(c) => VimView { buf: spec_insert_char(v.buf, c), ..v },
        Key::Backspace => VimView { buf: spec_backspace(v.buf), ..v },
        Key::Enter => VimView { buf: spec_split(v.buf), ..v },
        Key::Left => VimView { buf: spec_move_left(v.buf), ..v },
        Key::Right => VimView { buf: spec_move_right(v.buf), ..v },
        Key::Up => VimView { buf: spec_move_up(v.buf), ..v },
        Key::Down => VimView { buf: spec_move_down(v.buf), ..v },
        _ => v,
    }
}

/// The motions shared by Normal and the visual modes.
pub open spec fn spec_motion(b: BufView, c: char) -> BufView {
    if c == 'h' {
        spec_move_left(b)
    } else if c == 'j' {
        spec_move_down(b)
    } else if c == 'k' {
        spec_move_up(b)
    } else if c == 'l' {
        spec_move_right(b)
    } else if c == '0' {
        spec_line_start(b)
    } else if c == '$' {
        spec_line_end(b)
    } else if c == 'w' {
        spec_word_forward_buf(b)
    } else if c == 'b' {
        spec_word_backward_buf(b)
    } else if c == 'G' {
        spec_goto_last(b)
    } else {
        b
    }
}

/// Whether a character is one of the single-key motions.
pub open spec fn is_motion_char(c: char) -> bool {
    c == 'h' || c == 'j' || c == 'k' || c == 'l' || c == '0' || c == '$' || c == 'w' || c == 'b'
        || c == 'G'
}

/// A key in Normal mode. A pending prefix (`g`, `d`, `y`) waits for its
/// second character: `gg`, `dd` and `yy` act, anything else cancels the
/// prefix silently. Without a prefix: `i`/`a` enter Insert, `v`/`V` enter a
/// visual mode anchored at the cursor, `:` enters Command, motions move,
/// `dd`'s and `yy`'s prefix is remembered, `p` pastes the register, and
/// Escape changes nothing (closing the overlay is the router's decision).
pub open spec fn spec_step_normal(v: VimView, key: Key) -> VimView {
    if v.pending is Some {
        let p = v.pending->0;
        let w = VimView { pending: None, ..v };
        match key {
            Key::Char(c) => if p == 'g' && c == 'g' {
                VimView { buf: spec_goto_first(v.buf), ..w }
            } else if p == 'd' && c == 'd' {
                VimView { buf: spec_delete_line(v.buf), register: Some(v.buf.cur()), ..w }
            } else if p == 'y' && c == 'y' {
                VimView { register: Some(v.buf.cur()), ..w }
            } else {
                w
            },
            _ => w,
        }
    } else {
        match key {
            Key::Char(c) => if c == 'i' {
                VimView { vim_mode: VimMode::Insert, ..v }
            } else if c == 'a' {
                VimView { vim_mode: VimMode::Insert, buf: spec_move_right_in_line(v.buf), ..v }
            } else if c == 'v' {
                VimView {
                    vim_mode: VimMode::Visual,
                    anchor_line: v.buf.line,
                    anchor_col: v.buf.col,
                    ..v
                }
            } else if c == 'V' {
                VimView {
                    vim_mode: VimMode::VisualLine,
                    anchor_line: v.buf.line,
                    anchor_col: v.buf.col,
                    ..v
                }
            } else if c == ':' {
                VimView {
                    vim_mode: VimMode::Command,
                    command: Seq::empty(),
                    unknown: None,
                    ..v
                }
            } else if c == 'g' || c == 'd' || c == 'y' {
                VimView { pending: Some(c), ..v }
            } else if c == 'p' {
                match v.register {
                    Some(reg) => VimView { buf: spec_paste_after(v.buf, reg), ..v },
                    None => v,
                }
            } else if is_motion_char(c) {
                VimView { buf: spec_motion(v.buf, c), ..v }
            } else {
                v
            },
            Key::Left => VimView { buf: spec_move_left(v.buf), ..v },
            Key::Right => VimView { buf: spec_move_right(v.buf), ..v },
            Key::Up => VimView { buf: spec_move_up(v.buf), ..v },
            Key::Down => VimView { buf: spec_move_down(v.buf), ..v },
            _ => v,
        }
    }
}

/// A key in a visual mode: Escape discards the selection and returns to
/// Normal; motions move the cursor end of the selection; everything else is
/// a no-op.
pub open spec fn spec_step_visual(v: VimView, key: Key) -> VimView {
    match key {
        Key::Esc => VimView { vim_mode: VimMode::Normal, ..v },
        Key::Char(c) => if is_motion_char(c) {
            VimView { buf: spec_motion(v.buf, c), ..v }
        } else {
            v
        },
        Key::Left => VimView { buf: spec_move_left(v.buf), ..v },
        Key::Right => VimView { buf: spec_move_right(v.buf), ..v },
        Key::Up => VimView { buf: spec_move_up(v.buf), ..v },
        Key::Down => VimView { buf: spec_move_down(v.buf), ..v },
        _ => v,
    }
}

/// A key in Command mode: printable characters append to the command line,
/// Backspace pops (a no-op when it is empty), Escape discards it, and Enter
/// parses it, records an unrecognized command's text, and returns to Normal.
pub open spec fn spec_step_command(v: VimView, key: Key) -> VimView {
    match key {
        Key::Char(c) => VimView { command: v.command.push(c), ..v },
        Key::Backspace => if v.command.len() > 0 {
            VimView { command: v.command.drop_last(), ..v }
        } else {
            v
        },
        Key::Esc => VimView { vim_mode: VimMode::Normal, command: Seq::empty(), ..v },
        Key::Enter => VimView {
            vim_mode: VimMode::Normal,
            command: Seq::empty(),
            unknown: if spec_parse_command(v.command) is Unrecognized {
                Some(v.command)
            } else {
                None
            },
            ..v
        },
        _ => v,
    }
}

/// The editor's whole transition function: one key, one next state.
pub open spec fn spec_step(v: VimView, key: Key) -> VimView {
    match v.focus {
        InputMode::Title => spec_step_title(v, key),
        InputMode::Description => match v.vim_mode {
            VimMode::Insert => spec_step_insert(v, key),
            VimMode::Normal => spec_step_normal(v, key),
            VimMode::Visual => spec_step_visual(v, key),
            VimMode::VisualLine => spec_step_visual(v, key),
            VimMode::VisualBlock => spec_step_visual(v, key),
            VimMode::Command => spec_step_command(v, key),
        },
    }
}

/// The control command a key produces: only Enter on a command line that
/// parses to save, save-and-close or quit emits one.
pub open spec fn spec_command_emit(v: VimView, key: Key) -> Option<VimCommand> {
    if v.focus is Description && v.vim_mode is Command && key is Enter {
        match spec_parse_command(v.command) {
            ParsedCommand::Save => Some(VimCommand::Save),
            ParsedCommand::SaveAndClose => Some(VimCommand::SaveAndClose),
            ParsedCommand::Quit => Some(VimCommand::Quit),
            ParsedCommand::Empty => None,
            ParsedCommand::Unrecognized => None,
        }
    } else {
        None
    }
}

/// The vim-style editor's state.
pub struct VimInput {
    pub active: bool,
    pub title: Vec<char>,
    pub cursor_position: usize,
    pub mode: InputMode,
    pub is_editing: bool,
    pub vim_mode: VimMode,
    pub command_buffer: Vec<char>,
    pub pending: Option<char>,
    pub register: Option<Vec<char>>,
    pub visual_anchor_line: usize,
    pub visual_anchor_col: usize,
    pub buffer: TextBuffer,
    pub unknown_command: Option<Vec<char>>,
}

impl View for VimInput {
    type V = VimView;

    open spec fn view(&self) -> VimView {
        VimView {
            active: self.active,
            title: self.title@,
            cursor: self.cursor_position as int,
            focus: self.mode,
            is_editing: self.is_editing,
            vim_mode: self.vim_mode,
            command: self.command_buffer@,
            pending: self.pending,
            register: match self.register {
                Some(r) => Some(r@),
                None => None,
            },
            anchor_line: self.visual_anchor_line as int,
            anchor_col: self.visual_anchor_col as int,
            buf: self.buffer@,
            unknown: match self.unknown_command {
                Some(u) => Some(u@),
                None => None,
            },
        }
    }
}

impl VimInput {
    /// Well-formedness: the title cursor stays inside the title and the
    /// description buffer is well formed.
    pub open spec fn wf(self) -> bool {
        &&& self.cursor_position <= self.title@.len()
        &&& self.buffer@.wf()
    }

    /// The description the editor would hand back: the joined lines, with
    /// surrounding whitespace removed.
    pub open spec fn description_view(self) -> Seq<char> {
        spec_trim(spec_join_lines(self.buffer@.lines))
    }

    /// A closed, inactive editor with empty fields, focused on the title,
    /// the description in Insert mode (the title always starts typing-ready).
    pub fn new() -> (r: VimInput)
        ensures
            r.wf(),
            !r@.active,
            r@.title.len() == 0,
            r@.cursor == 0,
            r@.focus is Title,
            !r@.is_editing,
            r@.vim_mode is Insert,
            r@.command.len() == 0,
            r@.pending is None,
            r@.register is None,
            r@.buf.lines =~= seq![Seq::<char>::empty()],
            r@.buf.line == 0 && r@.buf.col == 0,
            r@.unknown is None,
    {
        VimInput {
            active: false,
            title: Vec::new(),
            cursor_position: 0,
            mode: InputMode::Title,
            is_editing: false,
            vim_mode: VimMode::Insert,
            command_buffer: Vec::new(),
            pending: None,
            register: None,
            visual_anchor_line: 0,
            visual_anchor_col: 0,
            buffer: TextBuffer::new(),
            unknown_command: None,
        }
    }

    /// Opens the editor empty for a new entry.
    pub fn open(&mut self)
        ensures
            final(self).wf(),
            final(self)@.active,
            final(self)@.title.len() == 0,
            final(self)@.cursor == 0,
            final(self)@.focus is Title,
            !final(self)@.is_editing,
            final(self)@.vim_mode is Insert,
            final(self)@.command.len() == 0,
            final(self)@.pending is None,
            final(self)@.register is None,
            final(self)@.buf.lines =~= seq![Seq::<char>::empty()],
            final(self)@.buf.line == 0 && final(self)@.buf.col == 0,
            final(self)@.unknown is None,
    {
        self.active = true;
        self.title = Vec::new();
        self.cursor_position = 0;
        self.mode = InputMode::Title;
        self.is_editing = false;
        self.vim_mode = VimMode::Insert;
        self.command_buffer = Vec::new();
        self.pending = None;
        self.register = None;
        self.visual_anchor_line = 0;
        self.visual_anchor_col = 0;
        self.buffer = TextBuffer::new();
        self.unknown_command = None;
    }

    /// Opens the editor preloaded with an existing entry: the title cursor
    /// at the end of the title, focus on the title, description in Insert.
    pub fn open_with_data(&mut self, title: &str, description: Option<&str>)
        ensures
            final(self).wf(),
            final(self)@.active,
            final(self)@.title == title@,
            final(self)@.cursor == title@.len(),
            final(self)@.focus is Title,
            final(self)@.is_editing,
            final(self)@.vim_mode is Insert,
            final(self)@.command.len() == 0,
            final(self)@.pending is None,
            final(self)@.register is None,
            match description {
                Some(d) => final(self)@.buf.lines == spec_split_lines(d@),
                None => final(self)@.buf.lines =~= seq![Seq::<char>::empty()],
            },
            final(self)@.buf.line == 0 && final(self)@.buf.col == 0,
            final(self)@.unknown is None,
    {
        self.active = true;
        self.title = str_to_chars(title);
        self.cursor_position = self.title.len();
        self.mode = InputMode::Title;
        self.is_editing = true;
        self.vim_mode = VimMode::Insert;
        self.command_buffer = Vec::new();
        self.pending = None;
        self.register = None;
        self.visual_anchor_line = 0;
        self.visual_anchor_col = 0;
        match description {
            Some(d) => {
                let chars = str_to_chars(d);
                let lines = split_lines(&chars);
                self.buffer = TextBuffer::from_lines(lines);
            },
            None => {
                self.buffer = TextBuffer::new();
            },
        }
        self.unknown_command = None;
    }

    /// Closes the editor; its contents stay as they are.
    pub fn close(&mut self)
        ensures
            *final(self) == (VimInput { active: false, ..*old(self) }),
    {
        self.active = false;
    }

    /// The editor reports itself as always typing-ready: the title is a flat
    /// insert field and the description starts in Insert mode.
    pub fn is_insert_mode(&self) -> (r: bool)
        ensures
            r == true,
    {
        match self.mode {
            InputMode::Title => true,
            InputMode::Description => true,
        }
    }

    /// Whether the description is in Normal mode: the one state in which
    /// Escape may close the whole overlay.
    pub fn is_normal_mode(&self) -> (r: bool)
        ensures
            r == (self@.vim_mode is Normal),
    {
        matches!(self.vim_mode, VimMode::Normal)
    }


    /// Whether the command line is capturing keys.
    pub fn is_command_mode(&self) -> (r: bool)
        ensures
            r == (self@.vim_mode is Command),
    {
        matches!(self.vim_mode, VimMode::Command)
    }

    /// The label a renderer shows for the current mode.
    pub fn get_vim_mode_display(&self) -> (r: &'static str)
        ensures
            self@.focus is Title ==> r@ == "INSERT"@,
            self@.focus is Description ==> match self@.vim_mode {
                VimMode::Normal => r@ == "NORMAL"@,
                VimMode::Insert => r@ == "INSERT"@,
                VimMode::Visual => r@ == "VISUAL"@,
                VimMode::VisualLine => r@ == "V-LINE"@,
                VimMode::VisualBlock => r@ == "V-BLOCK"@,
                VimMode::Command => r@ == "COMMAND"@,
            },
    {
        match self.mode {
            InputMode::Title => "INSERT",
            InputMode::Description => match self.vim_mode {
                VimMode::Normal => "NORMAL",
                VimMode::Insert => "INSERT",
                VimMode::Visual => "VISUAL",
                VimMode::VisualLine => "V-LINE",
                VimMode::VisualBlock => "V-BLOCK",
                VimMode::Command => "COMMAND",
            },
        }
    }

    /// The command line as typed so far.
    pub fn get_command_buffer(&self) -> (r: String)
        ensures
            r@ == self@.command,
    {
        chars_to_string(&self.command_buffer)
    }

    /// The text of the last unrecognized command, if the last command line
    /// was one.
    pub fn get_unknown_command(&self) -> (r: Option<String>)
        ensures
            self@.unknown is None ==> r is None,
            self@.unknown is Some ==> (r matches Some(s) && s@ == self@.unknown->0),
    {
        match &self.unknown_command {
            Some(u) => Some(chars_to_string(u)),
            None => None,
        }
    }

    /// Switches focus to the description; the description's mode stands.
    pub fn switch_to_description(&mut self)
        ensures
            *final(self) == (VimInput { mode: InputMode::Description, ..*old(self) }),
    {
        self.mode = InputMode::Description;
    }

    /// Switches focus to the title; the description's mode stands.
    pub fn switch_to_title(&mut self)
        ensures
            *final(self) == (VimInput { mode: InputMode::Title, ..*old(self) }),
    {
        self.mode = InputMode::Title;
    }

    /// Whether the title is focused.
    pub fn is_in_title_mode(&self) -> (r: bool)
        ensures
            r == (self@.focus is Title),
    {
        matches!(self.mode, InputMode::Title)
    }

    /// The current title text.
    pub fn get_title(&self) -> (r: String)
        ensures
            r@ == self@.title,
    {
        chars_to_string(&self.title)
    }

    /// The description, trimmed; `None` when it is empty.
    pub fn get_description(&self) -> (r: Option<String>)
        requires
            self.wf(),
        ensures
            self.description_view().len() == 0 ==> r is None,
            self.description_view().len() > 0 ==> (r matches Some(s) && s@
                == self.description_view()),
    {
        let joined = self.buffer.all_text();
        let trimmed = trim_chars(&joined);
        if trimmed.len() == 0 {
            None
        } else {
            Some(chars_to_string(&trimmed))
        }
    }

    /// One key while the title is focused; see `spec_step_title`.
    fn handle_title_key(&mut self, key: Key)
        requires
            old(self).wf(),
            old(self)@.focus is Title,
            old(self).title@.len() < usize::MAX,
        ensures
            final(self).wf(),
            final(self)@ == spec_step_title(old(self)@, key),
    {
        match key {
            Key::Char(c) => {
                self.title.insert(self.cursor_position, c);
                self.cursor_position = self.cursor_position + 1;
            },
            Key::Backspace => {
                if self.cursor_position > 0 {
                    self.cursor_position = self.cursor_position - 1;
                    self.title.remove(self.cursor_position);
                }
            },
            Key::Left => {
                if self.cursor_position > 0 {
                    self.cursor_position = self.cursor_position - 1;
                }
            },
            Key::Right => {
                if self.cursor_position < self.title.len() {
                    self.cursor_position = self.cursor_position + 1;
                }
            },
            Key::Enter => {
                self.mode = InputMode::Description;
            },
            _ => {},
        }
        proof {
            assert(self@ =~= spec_step_title(old(self)@, key));
        }
    }

    /// One key in Insert mode; see `spec_step_insert`.
    fn handle_insert_key(&mut self, key: Key)
        requires
            old(self).wf(),
            old(self)@.focus is Description,
            old(self)@.vim_mode is Insert,
            old(self).buffer@.cur().len() < usize::MAX,
        ensures
            final(self).wf(),
            final(self)@ == spec_step_insert(old(self)@, key),
    {
        match key {
            Key::Esc => {
                self.vim_mode = VimMode::Normal;
            },
            Key::Char(c) => {
                self.buffer.insert_char(c);
            },
            Key::Backspace => {
                self.buffer.delete_before_cursor();
            },
            Key::Enter => {
                self.buffer.split_at_cursor();
            },
            Key::Left => {
                self.buffer.move_left();
            },
            Key::Right => {
                self.buffer.move_right();
            },
            Key::Up => {
                self.buffer.move_up();
            },
            Key::Down => {
                self.buffer.move_down();
            },
            _ => {},
        }
        proof {
            assert(self@ =~= spec_step_insert(old(self)@, key));
        }
    }

    /// One motion character on the buffer; see `spec_motion`.
    fn apply_motion(&mut self, c: char)
        requires
            old(self).wf(),
            is_motion_char(c),
        ensures
            final(self).wf(),
            *final(self) == (VimInput { buffer: final(self).buffer, ..*old(self) }),
            final(self).buffer@ == spec_motion(old(self).buffer@, c),
    {
        if c == 'h' {
            self.buffer.move_left();
        } else if c == 'j' {
            self.buffer.move_down();
        } else if c == 'k' {
            self.buffer.move_up();
        } else if c == 'l' {
            self.buffer.move_right();
        } else if c == '0' {
            self.buffer.line_start();
        } else if c == '$' {
            self.buffer.line_end();
        } else if c == 'w' {
            self.buffer.word_forward();
        } else {
            if c == 'b' {
                self.buffer.word_backward();
            } else {
                self.buffer.goto_last_line();
            }
        }
    }

    /// One key in Normal mode; see `spec_step_normal`.
    fn handle_normal_key(&mut self, key: Key)
        requires
            old(self).wf(),
            old(self)@.focus is Description,
            old(self)@.vim_mode is Normal,
        ensures
            final(self).wf(),
            final(self)@ == spec_step_normal(old(self)@, key),
    {
        match self.pending {
            Some(p) => {
                self.pending = None;
                match key {
                    Key::Char(c) => {
                        if p == 'g' && c == 'g' {
                            self.buffer.goto_first_line();
                        } else if p == 'd' && c == 'd' {
                            let removed = self.buffer.delete_current_line();
                            self.register = Some(removed);
                        } else if p == 'y' && c == 'y' {
                            let line = self.buffer.yank_current_line();
                            self.register = Some(line);
                        }
                    },
                    _ => {},
                }
            },
            None => {
                match key {
                    Key::Char(c) => {
                        if c == 'i' {
                            self.vim_mode = VimMode::Insert;
                        } else if c == 'a' {
                            self.vim_mode = VimMode::Insert;
                            self.buffer.move_right_in_line();
                        } else if c == 'v' {
                            self.vim_mode = VimMode::Visual;
                            self.visual_anchor_line = self.buffer.cursor_line();
                            self.visual_anchor_col = self.buffer.cursor_col();
                        } else if c == 'V' {
                            self.vim_mode = VimMode::VisualLine;
                            self.visual_anchor_line = self.buffer.cursor_line();
                            self.visual_anchor_col = self.buffer.cursor_col();
                        } else if c == ':' {
                            self.vim_mode = VimMode::Command;
                            self.command_buffer = Vec::new();
                            self.unknown_command = None;
                        } else if c == 'g' || c == 'd' || c == 'y' {
                            self.pending = Some(c);
                        } else if c == 'p' {
                            match &self.register {
                                Some(reg) => {
                                    let line = reg.clone();
                                    self.buffer.paste_after(&line);
                                },
                                None => {},
                            }
                        } else if c == 'h' || c == 'j' || c == 'k' || c == 'l' || c == '0'
                            || c == '$' || c == 'w' || c == 'b' || c == 'G' {
                            self.apply_motion(c);
                        }
                    },
                    Key::Left => {
                        self.buffer.move_left();
                    },
                    Key::Right => {
                        self.buffer.move_right();
                    },
                    Key::Up => {
                        self.buffer.move_up();
                    },
                    Key::Down => {
                        self.buffer.move_down();
                    },
                    _ => {},
                }
            },
        }
        proof {
            assert(self@ =~= spec_step_normal(old(self)@, key));
        }
    }

    /// One key in a visual mode; see `spec_step_visual`.
    fn handle_visual_key(&mut self, key: Key)
        requires
            old(self).wf(),
            old(self)@.focus is Description,
            old(self)@.vim_mode is Visual || old(self)@.vim_mode is VisualLine || old(
                self,
            )@.vim_mode is VisualBlock,
        ensures
            final(self).wf(),
            final(self)@ == spec_step_visual(old(self)@, key),
    {
        match key {
            Key::Esc => {
                self.vim_mode = VimMode::Normal;
            },
            Key::Char(c) => {
                if c == 'h' || c == 'j' || c == 'k' || c == 'l' || c == '0' || c == '$'
                    || c == 'w' || c == 'b' || c == 'G' {
                    self.apply_motion(c);
                }
            },
            Key::Left => {
                self.buffer.move_left();
            },
            Key::Right => {
                self.buffer.move_right();
            },
            Key::Up => {
                self.buffer.move_up();
            },
            Key::Down => {
                self.buffer.move_down();
            },
            _ => {},
        }
        proof {
            assert(self@ =~= spec_step_visual(old(self)@, key));
        }
    }

    /// One key in Command mode; see `spec_step_command` and
    /// `spec_command_emit`.
    fn handle_command_key(&mut self, key: Key) -> (r: Option<VimCommand>)
        requires
            old(self).wf(),
            old(self)@.focus is Description,
            old(self)@.vim_mode is Command,
        ensures
            final(self).wf(),
            final(self)@ == spec_step_command(old(self)@, key),
            r == spec_command_emit(old(self)@, key),
    {
        match key {
            Key::Char(c) => {
                self.command_buffer.push(c);
                None
            },
            Key::Backspace => {
                if self.command_buffer.len() > 0 {
                    self.command_buffer.pop();
                }
                proof {
                    assert(self@ =~= spec_step_command(old(self)@, key));
                }
                None
            },
            Key::Esc => {
                self.vim_mode = VimMode::Normal;
                self.command_buffer = Vec::new();
                None
            },
            Key::Enter => {
                let parsed = parse_command(&self.command_buffer);
                match parsed {
                    ParsedCommand::Unrecognized => {
                        self.unknown_command = Some(self.command_buffer.clone());
                    },
                    _ => {
                        self.unknown_command = None;
                    },
                }
                self.command_buffer = Vec::new();
                self.vim_mode = VimMode::Normal;
                proof {
                    assert(self@ =~= spec_step_command(old(self)@, key));
                }
                match parsed {
                    ParsedCommand::Save => Some(VimCommand::Save),
                    ParsedCommand::SaveAndClose => Some(VimCommand::SaveAndClose),
                    ParsedCommand::Quit => Some(VimCommand::Quit),
                    ParsedCommand::Empty => None,
                    ParsedCommand::Unrecognized => None,
                }
            },
            _ => None,
        }
    }

    /// One decoded key: the editor takes its `spec_step` transition and
    /// hands back the control command the key produced, if any.
    pub fn handle_key_event(&mut self, key: Key) -> (r: Option<VimCommand>)
        requires
            old(self).wf(),
            old(self).title@.len() < usize::MAX,
            old(self).buffer@.cur().len() < usize::MAX,
        ensures
            final(self).wf(),
            final(self)@ == spec_step(old(self)@, key),
            r == spec_command_emit(old(self)@, key),
    {
        match self.mode {
            InputMode::Title => {
                self.handle_title_key(key);
                None
            },
            InputMode::Description => match self.vim_mode {
                VimMode::Insert => {
                    self.handle_insert_key(key);
                    None
                },
                VimMode::Normal => {
                    self.handle_normal_key(key);
                    None
                },
                VimMode::Visual => {
                    self.handle_visual_key(key);
                    None
                },
                VimMode::VisualLine => {
                    self.handle_visual_key(key);
                    None
                },
                VimMode::VisualBlock => {
                    self.handle_visual_key(key);
                    None
                },
                VimMode::Command => self.handle_command_key(key),
            },
        }
    }
}

} // verus!
