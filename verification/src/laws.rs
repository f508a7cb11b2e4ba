//! Properties that relate several operations of the buffer and the editors,
//! stated over the mathematical models (`BufView`, `VimView`) and the spec
//! functions that the executable functions' own contracts use.

use vstd::prelude::*;

use crate::add_todo_modal::AddTodoModal;
use crate::events::Key;
use crate::text::is_space_char;
use crate::text::lemma_join_split_lines;
use crate::text::spec_join_lines;
use crate::text::spec_split_lines;
use crate::text::spec_trim;
use crate::text::spec_trim_end;
use crate::text::spec_trim_start;
use crate::text_buffer::BufView;
use crate::text_buffer::lemma_skip_non_word_back;
use crate::text_buffer::lemma_skip_non_word_back_le;
use crate::text_buffer::lemma_skip_non_word_chars;
use crate::text_buffer::lemma_skip_word_back;
use crate::text_buffer::lemma_skip_word_back_le;
use crate::text_buffer::lemma_skip_word_chars;
use crate::text_buffer::skip_non_word_back;
use crate::text_buffer::skip_non_word_chars;
use crate::text_buffer::skip_word_back;
use crate::text_buffer::skip_word_chars;
use crate::text_buffer::spec_backspace;
use crate::text_buffer::spec_delete_line;
use crate::text_buffer::spec_goto_first;
use crate::text_buffer::spec_goto_last;
use crate::text_buffer::spec_insert_char;
use crate::text_buffer::spec_paste_after;
use crate::text_buffer::spec_word_backward;
use crate::text_buffer::spec_word_forward;
use crate::vim_input::VimCommand;
use crate::vim_input::VimView;
use crate::vim_input::spec_command_emit;
use crate::vim_input::spec_parse_command;
use crate::vim_input::spec_step;

verus! {

/// The state after inserting every character of `cs` at the cursor, in order.
pub open spec fn spec_insert_all(v: BufView, cs: Seq<char>) -> BufView
    decreases cs.len(),
{
    if cs.len() == 0 {
        v
    } else {
        spec_insert_char(spec_insert_all(v, cs.drop_last()), cs.last())
    }
}

/// The state after `n` backspaces.
pub open spec fn spec_backspace_n(v: BufView, n: nat) -> BufView
    decreases n,
{
    if n == 0 {
        v
    } else {
        spec_backspace_n(spec_backspace(v), (n - 1) as nat)
    }
}

/// Inserting a character keeps the buffer well formed.
pub proof fn lemma_insert_char_wf(v: BufView, c: char)
    requires
        v.wf(),
    ensures
        spec_insert_char(v, c).wf(),
{
}

/// One backspace exactly undoes one insertion.
pub proof fn lemma_insert_then_backspace(v: BufView, c: char)
    requires
        v.wf(),
    ensures
        spec_backspace(spec_insert_char(v, c)) == v,
{
    let w = spec_insert_char(v, c);
    assert(w.cur() == v.cur().insert(v.col, c));
    assert(v.cur().insert(v.col, c).remove(v.col) =~= v.cur());
    assert(spec_backspace(w).lines =~= v.lines);
    assert(spec_backspace(w) =~= v);
}

/// Any run of insertions followed by as many backspaces returns the buffer
/// to its exact prior state, content and cursor alike.
pub proof fn lemma_inserts_then_backspaces(v: BufView, cs: Seq<char>)
    requires
        v.wf(),
    ensures
        spec_insert_all(v, cs).wf(),
        spec_backspace_n(spec_insert_all(v, cs), cs.len()) == v,
    decreases cs.len(),
{
    if cs.len() > 0 {
        let w = spec_insert_all(v, cs.drop_last());
        lemma_inserts_then_backspaces(v, cs.drop_last());
        lemma_insert_char_wf(w, cs.last());
        lemma_insert_then_backspace(w, cs.last());
        assert(spec_backspace_n(spec_insert_char(w, cs.last()), cs.len()) == spec_backspace_n(
            w,
            cs.drop_last().len(),
        ));
    }
}

/// Inserting an element anywhere adds exactly it to the sequence's multiset.
proof fn lemma_to_multiset_insert<A>(s: Seq<A>, j: int, a: A)
    requires
        0 <= j <= s.len(),
    ensures
        s.insert(j, a).to_multiset() == s.to_multiset().insert(a),
{
    broadcast use vstd::seq_lib::group_to_multiset_ensures;
    broadcast use vstd::multiset::group_multiset_axioms;

    let t = s.insert(j, a);
    assert(t.remove(j) =~= s);
    assert(t[j] == a);
    assert(t.remove(j).to_multiset() == t.to_multiset().remove(a));
    assert(t.contains(a));
    assert(t.to_multiset().count(a) > 0);
    assert(t.to_multiset().remove(a).insert(a) =~= t.to_multiset());
}

/// Deleting the cursor's line and pasting it back restores the line count
/// and the lines as a multiset, with the cursor at the start of the pasted
/// line, which holds the deleted content.
pub proof fn lemma_delete_then_paste(v: BufView)
    requires
        v.wf(),
        v.lines.len() >= 2,
    ensures
        ({
            let r = spec_paste_after(spec_delete_line(v), v.cur());
            &&& r.lines.len() == v.lines.len()
            &&& r.lines[r.line] == v.cur()
            &&& r.col == 0
            &&& r.lines.to_multiset() == v.lines.to_multiset()
        }),
{
    broadcast use vstd::seq_lib::group_to_multiset_ensures;
    broadcast use vstd::multiset::group_multiset_axioms;

    let d = spec_delete_line(v);
    let r = spec_paste_after(d, v.cur());
    assert(d.lines == v.lines.remove(v.line));
    assert(d.lines.to_multiset() == v.lines.to_multiset().remove(v.cur()));
    lemma_to_multiset_insert(d.lines, d.line + 1, v.cur());
    assert(v.lines.contains(v.cur()));
    assert(v.lines.to_multiset().count(v.cur()) > 0);
    assert(v.lines.to_multiset().remove(v.cur()).insert(v.cur()) =~= v.lines.to_multiset());
}

/// Yanking the cursor's line and pasting duplicates it immediately below,
/// without removing the original; everything else stays in place and the
/// cursor lands on the duplicate.
pub proof fn lemma_yank_then_paste(v: BufView)
    requires
        v.wf(),
    ensures
        ({
            let r = spec_paste_after(v, v.cur());
            &&& r.lines.len() == v.lines.len() + 1
            &&& r.lines[v.line] == v.cur()
            &&& r.lines[v.line + 1] == v.cur()
            &&& r.line == v.line + 1
            &&& r.col == 0
            &&& forall|k: int| 0 <= k <= v.line ==> r.lines[k] == v.lines[k]
            &&& forall|k: int|
                v.line + 1 < k < r.lines.len() ==> r.lines[k] == v.lines[k - 1]
        }),
{
}

/// Jumping to the first line then to the last lands on lines `0` and
/// `len - 1` whatever the starting position; on a single-line buffer both
/// jumps leave the state unchanged.
pub proof fn lemma_first_then_last(v: BufView)
    requires
        v.wf(),
    ensures
        spec_goto_first(v).line == 0,
        spec_goto_last(spec_goto_first(v)).line == v.lines.len() - 1,
        spec_goto_last(spec_goto_first(v)).lines == v.lines,
        v.lines.len() == 1 ==> spec_goto_first(v) == v && spec_goto_last(v) == v,
{
}

/// Word-forward then word-backward never ends past the starting column.
pub proof fn lemma_word_round_trip(l: Seq<char>, col: int)
    requires
        0 <= col <= l.len(),
    ensures
        spec_word_backward(l, spec_word_forward(l, col)) <= col,
{
    let a = skip_word_chars(l, col);
    let t = skip_non_word_chars(l, a);
    lemma_skip_word_chars(l, col);
    lemma_skip_non_word_chars(l, a);
    if t == 0 {
    } else {
        let j0 = t - 1;
        let jstar = skip_non_word_back(l, j0);
        lemma_skip_non_word_back(l, j0);
        if a > col {
            assert(crate::is_word_char(l[a - 1]));
            assert(jstar == a - 1) by {
                if jstar < a - 1 {
                    assert(!crate::is_word_char(l[a - 1]));
                }
                if jstar > a - 1 {
                    assert(!crate::is_word_char(l[jstar]));
                    assert(jstar > 0);
                }
            }
            lemma_skip_word_back_le(l, col, a - 1);
        } else {
            if t <= col {
                lemma_skip_word_back(l, jstar);
            } else {
                if col == 0 {
                    lemma_skip_non_word_back_le(l, 0, j0);
                    lemma_skip_word_back(l, jstar);
                } else {
                    lemma_skip_non_word_back_le(l, col, j0);
                    lemma_skip_word_back(l, jstar);
                }
            }
        }
    }
}

/// Removing leading whitespace never lengthens the text, and removes at
/// least the first character when it is whitespace.
proof fn lemma_trim_start_len(s: Seq<char>)
    ensures
        spec_trim_start(s).len() <= s.len(),
        s.len() > 0 && is_space_char(s[0]) ==> spec_trim_start(s).len() < s.len(),
    decreases s.len(),
{
    if s.len() > 0 && is_space_char(s[0]) {
        lemma_trim_start_len(s.drop_first());
    }
}

/// Removing trailing whitespace never lengthens the text, and removes at
/// least the last character when it is whitespace.
proof fn lemma_trim_end_len(s: Seq<char>)
    ensures
        spec_trim_end(s).len() <= s.len(),
        s.len() > 0 && is_space_char(s.last()) ==> spec_trim_end(s).len() < s.len(),
    decreases s.len(),
{
    if s.len() > 0 && is_space_char(s.last()) {
        lemma_trim_end_len(s.drop_last());
    }
}

/// A non-empty text unchanged by trimming neither starts nor ends with
/// whitespace.
proof fn lemma_trim_stable_ends(o: Seq<char>)
    requires
        spec_trim(o) == o,
        o.len() > 0,
    ensures
        !is_space_char(o[0]),
        !is_space_char(o.last()),
{
    lemma_trim_start_len(o);
    lemma_trim_end_len(spec_trim_start(o));
    if is_space_char(o[0]) {
        assert(spec_trim(o).len() < o.len());
    }
    assert(spec_trim_start(o) == o);
    if is_space_char(o.last()) {
        assert(spec_trim_end(o).len() < o.len());
    }
}

/// Prepending one character to the first line prepends it to the join.
proof fn lemma_join_prepend_first(ls: Seq<Seq<char>>, c: char)
    requires
        ls.len() >= 1,
    ensures
        spec_join_lines(ls.update(0, seq![c] + ls[0])) == seq![c] + spec_join_lines(ls),
    decreases ls.len(),
{
    let u = ls.update(0, seq![c] + ls[0]);
    if ls.len() == 1 {
        assert(spec_join_lines(u) =~= seq![c] + spec_join_lines(ls));
    } else {
        assert(u.drop_last() =~= ls.drop_last().update(0, seq![c] + ls.drop_last()[0]));
        lemma_join_prepend_first(ls.drop_last(), c);
        assert(spec_join_lines(u) =~= seq![c] + spec_join_lines(ls));
    }
}

/// Immediately after opening the editor on an entry whose description is
/// unchanged by trimming, nothing counts as unsaved: the title matches its
/// snapshot and the description round-trips through split and join.
pub proof fn lemma_open_with_data_not_unsaved(m: AddTodoModal, o: Seq<char>)
    requires
        m.input_handler.spec_title() == m.original_title@,
        m.original_description matches Some(d) && d@ == o,
        m.input_handler.spec_desc_lines() == spec_split_lines(o),
        spec_trim(o) == o,
    ensures
        !m.spec_unsaved(),
{
    lemma_join_split_lines(o);
}

/// The same, for an entry opened without a description.
pub proof fn lemma_open_empty_not_unsaved(m: AddTodoModal)
    requires
        m.input_handler.spec_title() == m.original_title@,
        m.original_description is None,
        m.input_handler.spec_desc_lines() =~= seq![Seq::<char>::empty()],
    ensures
        !m.spec_unsaved(),
{
    assert(spec_join_lines(m.input_handler.spec_desc_lines()) =~= Seq::<char>::empty());
}

/// Typing one character into the title of an unmodified overlay makes it
/// unsaved, wherever the cursor sits.
pub proof fn lemma_title_char_marks_unsaved(m: AddTodoModal, m2: AddTodoModal, k: int, c: char)
    requires
        m.input_handler.spec_title() == m.original_title@,
        0 <= k <= m.input_handler.spec_title().len(),
        m2.original_title == m.original_title,
        m2.original_description == m.original_description,
        m2.input_handler.spec_title() == m.input_handler.spec_title().insert(k, c),
    ensures
        m2.spec_unsaved(),
{
    assert(m2.input_handler.spec_title().len() == m.original_title@.len() + 1);
}

/// Typing one non-whitespace character at the start of the description of a
/// freshly opened overlay makes it unsaved. (A whitespace character there
/// can disappear under trimming, so it is left out.)
pub proof fn lemma_desc_char_marks_unsaved(m: AddTodoModal, m2: AddTodoModal, o: Seq<char>, c: char)
    requires
        m.original_description matches Some(d) && d@ == o,
        m.input_handler.spec_desc_lines() == spec_split_lines(o),
        spec_trim(o) == o,
        !is_space_char(c),
        m2.original_title == m.original_title,
        m2.original_description == m.original_description,
        m2.input_handler.spec_desc_lines() == m.input_handler.spec_desc_lines().update(
            0,
            seq![c] + m.input_handler.spec_desc_lines()[0],
        ),
    ensures
        m2.spec_unsaved(),
{
    crate::text::lemma_split_lines_len(o);
    lemma_join_split_lines(o);
    lemma_join_prepend_first(m.input_handler.spec_desc_lines(), c);
    let joined = seq![c] + o;
    assert(spec_join_lines(m2.input_handler.spec_desc_lines()) == joined);
    assert(spec_trim_start(joined) == joined);
    if o.len() == 0 {
        assert(joined =~= seq![c]);
        assert(spec_trim_end(joined) == joined);
    } else {
        lemma_trim_stable_ends(o);
        assert(joined.last() == o.last());
        assert(spec_trim_end(joined) == joined);
    }
    assert(m2.input_handler.spec_description() == joined);
    assert(joined.len() == o.len() + 1);
}

/// The command line's outcomes: `w`/`write` emit Save and the editor stays
/// as it was but back in Normal mode; `x`/`wq` emit SaveAndClose; `q`/`quit`
/// emit Quit; in every case Enter returns the editor to Normal mode and
/// clears the command line, and the editor does not deactivate itself.
pub proof fn lemma_command_line_outcomes(v: VimView)
    requires
        v.focus is Description,
        v.vim_mode is Command,
    ensures
        spec_parse_command(v.command) is Save ==> spec_command_emit(v, Key::Enter) == Some(
            VimCommand::Save,
        ),
        spec_parse_command(v.command) is SaveAndClose ==> spec_command_emit(v, Key::Enter) == Some(
            VimCommand::SaveAndClose,
        ),
        spec_parse_command(v.command) is Quit ==> spec_command_emit(v, Key::Enter) == Some(
            VimCommand::Quit,
        ),
        spec_parse_command(v.command) is Empty ==> spec_command_emit(v, Key::Enter) is None,
        spec_parse_command(v.command) is Unrecognized ==> spec_command_emit(v, Key::Enter) is None
            && spec_step(v, Key::Enter).unknown == Some(v.command),
        spec_step(v, Key::Enter).vim_mode is Normal,
        spec_step(v, Key::Enter).command.len() == 0,
        spec_step(v, Key::Enter).active == v.active,
        spec_step(v, Key::Enter).buf == v.buf,
{
}

/// Escape is mode-dependent, not a toggle: in Insert mode it steps back to
/// Normal without touching the text or deactivating the editor; in Normal
/// mode it changes nothing at all, leaving the close decision to the
/// router, which permits closing exactly in Normal mode.
pub proof fn lemma_escape_mode_dependent(v: VimView)
    requires
        v.focus is Description,
    ensures
        v.vim_mode is Insert ==> spec_step(v, Key::Esc) == (VimView {
            vim_mode: crate::vim_input::VimMode::Normal,
            ..v
        }),
        v.vim_mode is Normal && v.pending is None ==> spec_step(v, Key::Esc) == v,
        v.vim_mode is Visual || v.vim_mode is VisualLine || v.vim_mode is VisualBlock
            ==> spec_step(v, Key::Esc) == (VimView {
            vim_mode: crate::vim_input::VimMode::Normal,
            ..v
        }),
{
}

} // verus!
