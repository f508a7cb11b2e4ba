//! Core of a terminal todo manager: a modal text-input subsystem consisting
//! of a multi-line text buffer, two editors (a plain line editor and a
//! vim-style modal editor), and the key routing that dispatches events to
//! whichever overlay is active.

use vstd::prelude::*;

pub mod add_todo_modal;
pub mod app_core;
pub mod clock;
pub mod config;
pub mod confirmation;
pub mod events;
pub mod help_modal;
pub mod input_handler;
pub mod laws;
pub mod multi_select;
pub mod normal_input;
pub mod preview_modal;
pub mod settings_modal;
pub mod text;
pub mod text_buffer;
pub mod toast;
pub mod todo;
pub mod todo_list;
pub mod vim_input;

verus! {

/// Characters the editors treat as parts of a word: ASCII alphanumerics.
pub open spec fn is_word_char(c: char) -> bool {
    ('a' <= c && c <= 'z') || ('A' <= c && c <= 'Z') || ('0' <= c && c <= '9')
}

/// Executable mirror of `is_word_char`.
pub fn word_char(c: char) -> (r: bool)
    ensures
        r == is_word_char(c),
{
    ('a' <= c && c <= 'z') || ('A' <= c && c <= 'Z') || ('0' <= c && c <= '9')
}

} // verus!
