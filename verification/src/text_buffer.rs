//! A mutable multi-line text buffer with a cursor, the foundation both
//! editors build on. Lines are stored as vectors of characters so cursor
//! columns count Unicode scalar values. The buffer is never empty: an empty
//! buffer is one empty line. Every motion clamps instead of failing.

use vstd::prelude::*;

verus! {

/// Mathematical model of a buffer: the lines and the cursor position.
#[verifier::ext_equal]
pub struct BufView {
    pub lines: Seq<Seq<char>>,
    pub line: int,
    pub col: int,
}

impl BufView {
    /// Well-formedness: at least one line, cursor inside the text.
    pub open spec fn wf(self) -> bool {
        &&& self.lines.len() >= 1
        &&& 0 <= self.line < self.lines.len()
        &&& 0 <= self.col <= self.lines[self.line].len()
    }

    /// The line the cursor is on.
    pub open spec fn cur(self) -> Seq<char> {
        self.lines[self.line]
    }
}

/// Inserting a character at the cursor: the cursor moves past it.
pub open spec fn spec_insert_char(v: BufView, c: char) -> BufView {
    BufView {
        lines: v.lines.update(v.line, v.cur().insert(v.col, c)),
        line: v.line,
        col: v.col + 1,
    }
}

/// Backspace: removes the character before the cursor, or joins the current
/// line onto the previous one when the cursor is at column zero of a line
/// that is not the first. At the very start of the buffer it does nothing.
pub open spec fn spec_backspace(v: BufView) -> BufView {
    if v.col > 0 {
        BufView {
            lines: v.lines.update(v.line, v.cur().remove(v.col - 1)),
            line: v.line,
            col: v.col - 1,
        }
    } else if v.line > 0 {
        BufView {
            lines: v.lines.remove(v.line).update(
                v.line - 1,
                v.lines[v.line - 1] + v.lines[v.line],
            ),
            line: v.line - 1,
            col: v.lines[v.line - 1].len() as int,
        }
    } else {
        v
    }
}

/// Enter: splits the current line at the cursor, the remainder moving to a
/// new line below; the cursor lands at the start of that new line.
pub open spec fn spec_split(v: BufView) -> BufView {
    BufView {
        lines: v.lines.update(v.line, v.cur().take(v.col)).insert(
            v.line + 1,
            v.cur().skip(v.col),
        ),
        line: v.line + 1,
        col: 0,
    }
}

/// Removing the cursor's line: a buffer that would become empty keeps one
/// empty line; otherwise the cursor line clamps to the valid range and the
/// column clamps to the new current line.
pub open spec fn spec_delete_line(v: BufView) -> BufView {
    if v.lines.len() == 1 {
        BufView { lines: seq![Seq::<char>::empty()], line: 0, col: 0 }
    } else {
        let lines = v.lines.remove(v.line);
        let line = if v.line < lines.len() { v.line } else { lines.len() - 1 };
        let col = if v.col <= lines[line].len() { v.col } else { lines[line].len() as int };
        BufView { lines, line, col }
    }
}

/// Pasting one register line immediately below the cursor's line; the cursor
/// moves to the start of the pasted line.
pub open spec fn spec_paste_after(v: BufView, reg: Seq<char>) -> BufView {
    BufView { lines: v.lines.insert(v.line + 1, reg), line: v.line + 1, col: 0 }
}

/// Jump to the first line, the column clamping to that line's length.
pub open spec fn spec_goto_first(v: BufView) -> BufView {
    let col = if v.col <= v.lines[0].len() { v.col } else { v.lines[0].len() as int };
    BufView { lines: v.lines, line: 0, col }
}

/// Jump to the last line, the column clamping to that line's length.
pub open spec fn spec_goto_last(v: BufView) -> BufView {
    let line = v.lines.len() - 1;
    let col = if v.col <= v.lines[line].len() { v.col } else { v.lines[line].len() as int };
    BufView { lines: v.lines, line, col }
}


/// Move left one character, wrapping to the previous line's end at a line
/// start; a no-op at the buffer start.
pub open spec fn spec_move_left(v: BufView) -> BufView {
    if v.col > 0 {
        BufView { col: v.col - 1, ..v }
    } else if v.line > 0 {
        BufView { line: v.line - 1, col: v.lines[v.line - 1].len() as int, ..v }
    } else {
        v
    }
}

/// Move right one character, wrapping to the next line's start at a line
/// end; a no-op at the buffer end.
pub open spec fn spec_move_right(v: BufView) -> BufView {
    if v.col < v.cur().len() {
        BufView { col: v.col + 1, ..v }
    } else if v.line + 1 < v.lines.len() {
        BufView { line: v.line + 1, col: 0, ..v }
    } else {
        v
    }
}

/// Move right one character on the current line, stopping at the line end.
pub open spec fn spec_move_right_in_line(v: BufView) -> BufView {
    if v.col < v.cur().len() {
        BufView { col: v.col + 1, ..v }
    } else {
        v
    }
}

/// Move up one line, the column clamping; a no-op on the first line.
pub open spec fn spec_move_up(v: BufView) -> BufView {
    if v.line > 0 {
        let len = v.lines[v.line - 1].len() as int;
        BufView { line: v.line - 1, col: if v.col <= len { v.col } else { len }, ..v }
    } else {
        v
    }
}

/// Move down one line, the column clamping; a no-op on the last line.
pub open spec fn spec_move_down(v: BufView) -> BufView {
    if v.line + 1 < v.lines.len() {
        let len = v.lines[v.line + 1].len() as int;
        BufView { line: v.line + 1, col: if v.col <= len { v.col } else { len }, ..v }
    } else {
        v
    }
}

/// Jump to the start of the current line.
pub open spec fn spec_line_start(v: BufView) -> BufView {
    BufView { col: 0, ..v }
}

/// Jump to the end of the current line.
pub open spec fn spec_line_end(v: BufView) -> BufView {
    BufView { col: v.cur().len() as int, ..v }
}

/// Word-forward applied to a buffer: the column moves on the current line.
pub open spec fn spec_word_forward_buf(v: BufView) -> BufView {
    BufView { col: spec_word_forward(v.cur(), v.col), ..v }
}

/// Word-backward applied to a buffer.
pub open spec fn spec_word_backward_buf(v: BufView) -> BufView {
    BufView { col: spec_word_backward(v.cur(), v.col), ..v }
}

/// A multi-line text buffer with a cursor position.
pub struct TextBuffer {
    lines: Vec<Vec<char>>,
    cursor_line: usize,
    cursor_col: usize,
}

impl View for TextBuffer {
    type V = BufView;

    closed spec fn view(&self) -> BufView {
        BufView {
            lines: Seq::new(self.lines@.len(), |i: int| self.lines@[i]@),
            line: self.cursor_line as int,
            col: self.cursor_col as int,
        }
    }
}


/// Index of the first non-word character at or after `i` on line `l`.
pub open spec fn skip_word_chars(l: Seq<char>, i: int) -> int
    recommends
        0 <= i <= l.len(),
    decreases l.len() - i when 0 <= i <= l.len()
{
    if i < l.len() && crate::is_word_char(l[i]) {
        skip_word_chars(l, i + 1)
    } else {
        i
    }
}

/// Index of the first word character at or after `i` on line `l`.
pub open spec fn skip_non_word_chars(l: Seq<char>, i: int) -> int
    recommends
        0 <= i <= l.len(),
    decreases l.len() - i when 0 <= i <= l.len()
{
    if i < l.len() && !crate::is_word_char(l[i]) {
        skip_non_word_chars(l, i + 1)
    } else {
        i
    }
}

/// Word-forward motion on one line: skip the current word, then the
/// non-word characters after it, landing on the next word's start or the
/// line end.
pub open spec fn spec_word_forward(l: Seq<char>, col: int) -> int {
    skip_non_word_chars(l, skip_word_chars(l, col))
}

/// Walking left from `j` over non-word characters, stopping on a word
/// character or at the line start.
pub open spec fn skip_non_word_back(l: Seq<char>, j: int) -> int
    recommends
        0 <= j < l.len(),
    decreases j when j >= 0
{
    if j > 0 && !crate::is_word_char(l[j]) {
        skip_non_word_back(l, j - 1)
    } else {
        j
    }
}

/// Walking left from `j` to the start of the word `j` sits in.
pub open spec fn skip_word_back(l: Seq<char>, j: int) -> int
    recommends
        0 <= j <= l.len(),
    decreases j when j >= 0
{
    if j > 0 && crate::is_word_char(l[j - 1]) {
        skip_word_back(l, j - 1)
    } else {
        j
    }
}

/// Word-backward motion on one line, the mirror of `spec_word_forward`.
pub open spec fn spec_word_backward(l: Seq<char>, col: int) -> int {
    if col == 0 {
        0
    } else {
        skip_word_back(l, skip_non_word_back(l, col - 1))
    }
}

/// What `skip_word_chars` reaches: everything passed over is a word
/// character and the landing spot is the line end or a non-word character.
pub proof fn lemma_skip_word_chars(l: Seq<char>, i: int)
    requires
        0 <= i <= l.len(),
    ensures
        i <= skip_word_chars(l, i) <= l.len(),
        forall|k: int| i <= k < skip_word_chars(l, i) ==> crate::is_word_char(l[k]),
        skip_word_chars(l, i) == l.len() || !crate::is_word_char(l[skip_word_chars(l, i)]),
    decreases l.len() - i,
{
    if i < l.len() && crate::is_word_char(l[i]) {
        lemma_skip_word_chars(l, i + 1);
    }
}

/// What `skip_non_word_chars` reaches, mirroring `lemma_skip_word_chars`.
pub proof fn lemma_skip_non_word_chars(l: Seq<char>, i: int)
    requires
        0 <= i <= l.len(),
    ensures
        i <= skip_non_word_chars(l, i) <= l.len(),
        forall|k: int| i <= k < skip_non_word_chars(l, i) ==> !crate::is_word_char(l[k]),
        skip_non_word_chars(l, i) == l.len() || crate::is_word_char(
            l[skip_non_word_chars(l, i)],
        ),
    decreases l.len() - i,
{
    if i < l.len() && !crate::is_word_char(l[i]) {
        lemma_skip_non_word_chars(l, i + 1);
    }
}

/// What `skip_non_word_back` reaches: everything strictly right of the
/// landing spot up to `j` is non-word, and the landing spot is the line
/// start or a word character.
pub proof fn lemma_skip_non_word_back(l: Seq<char>, j: int)
    requires
        0 <= j < l.len(),
    ensures
        0 <= skip_non_word_back(l, j) <= j,
        forall|k: int| skip_non_word_back(l, j) < k <= j ==> !crate::is_word_char(l[k]),
        skip_non_word_back(l, j) == 0 || crate::is_word_char(l[skip_non_word_back(l, j)]),
    decreases j,
{
    if j > 0 && !crate::is_word_char(l[j]) {
        lemma_skip_non_word_back(l, j - 1);
    }
}

/// What `skip_word_back` reaches: everything from the landing spot up to
/// `j` is a word character, and the landing spot's left neighbour, if any,
/// is not.
pub proof fn lemma_skip_word_back(l: Seq<char>, j: int)
    requires
        0 <= j <= l.len(),
    ensures
        0 <= skip_word_back(l, j) <= j,
        forall|k: int| skip_word_back(l, j) <= k < j ==> crate::is_word_char(l[k]),
        skip_word_back(l, j) == 0 || !crate::is_word_char(l[skip_word_back(l, j) - 1]),
    decreases j,
{
    if j > 0 && crate::is_word_char(l[j - 1]) {
        lemma_skip_word_back(l, j - 1);
    }
}

/// Walking back over a stretch of word characters passes its left end.
pub proof fn lemma_skip_word_back_le(l: Seq<char>, m: int, j: int)
    requires
        0 <= m <= j <= l.len(),
        forall|k: int| m <= k < j ==> crate::is_word_char(l[k]),
    ensures
        skip_word_back(l, j) <= m,
    decreases j - m,
{
    if m < j {
        lemma_skip_word_back_le(l, m, j - 1);
    } else {
        lemma_skip_word_back(l, j);
    }
}

/// Walking back over a stretch of non-word characters passes its left end.
pub proof fn lemma_skip_non_word_back_le(l: Seq<char>, m: int, j: int)
    requires
        0 <= m <= j < l.len(),
        forall|k: int| m <= k <= j ==> !crate::is_word_char(l[k]),
    ensures
        skip_non_word_back(l, j) <= m,
        m == 0 ==> skip_non_word_back(l, j) == 0,
    decreases j - m,
{
    if m < j {
        lemma_skip_non_word_back_le(l, m, j - 1);
    } else {
        lemma_skip_non_word_back(l, j);
    }
}

impl TextBuffer {

    /// A fresh buffer: one empty line, cursor at its start.
    pub fn new() -> (r: TextBuffer)
        ensures
            r@.wf(),
            r@.lines =~= seq![Seq::<char>::empty()],
            r@.line == 0,
            r@.col == 0,
    {
        let mut lines: Vec<Vec<char>> = Vec::new();
        lines.push(Vec::new());
        let r = TextBuffer { lines, cursor_line: 0, cursor_col: 0 };
        assert(r@.lines =~= seq![Seq::<char>::empty()]);
        r
    }

    /// The number of lines.
    pub fn line_count(&self) -> (n: usize)
        ensures
            n == self@.lines.len(),
    {
        self.lines.len()
    }

    /// The cursor's line index.
    pub fn cursor_line(&self) -> (n: usize)
        ensures
            n == self@.line,
    {
        self.cursor_line
    }

    /// The cursor's column, counted in characters.
    pub fn cursor_col(&self) -> (n: usize)
        ensures
            n == self@.col,
    {
        self.cursor_col
    }


    /// The current line's length in characters.
    pub fn cur_line_len(&self) -> (n: usize)
        requires
            self@.wf(),
        ensures
            n == self@.cur().len(),
    {
        self.lines[self.cursor_line].len()
    }

    /// A copy of one line.
    pub fn line_at(&self, i: usize) -> (l: Vec<char>)
        requires
            i < self@.lines.len(),
        ensures
            l@ == self@.lines[i as int],
    {
        let l = &self.lines[i];
        l.clone()
    }


    /// A buffer holding the given lines, cursor at the start.
    pub fn from_lines(lines: Vec<Vec<char>>) -> (r: TextBuffer)
        requires
            lines@.len() >= 1,
        ensures
            r@.wf(),
            r@.lines == crate::text::vecs_view(lines@),
            r@.line == 0,
            r@.col == 0,
    {
        let r = TextBuffer { lines, cursor_line: 0, cursor_col: 0 };
        assert(r@.lines =~= crate::text::vecs_view(r.lines@));
        r
    }

    /// The whole text, lines joined by newlines.
    pub fn all_text(&self) -> (r: Vec<char>)
        requires
            self@.wf(),
        ensures
            r@ == crate::text::spec_join_lines(self@.lines),
    {
        let mut r: Vec<char> = Vec::new();
        let mut i: usize = 0;
        let n = self.lines.len();
        while i < n
            invariant
                i <= n == self@.lines.len(),
                self@.wf(),
                r@ == crate::text::spec_join_lines(self@.lines.take(i as int)),
            decreases n - i,
        {
            if i > 0 {
                r.push('\n');
            }
            let line = &self.lines[i];
            let mut j: usize = 0;
            let ghost base = r@;
            while j < line.len()
                invariant
                    j <= line@.len(),
                    line@ == self@.lines[i as int],
                    r@ == base + line@.take(j as int),
                decreases line@.len() - j,
            {
                r.push(line[j]);
                assert(r@ =~= base + line@.take(j + 1 as int));
                j = j + 1;
            }
            assert(line@.take(line@.len() as int) =~= line@);
            proof {
                let tail = self@.lines.take(i + 1 as int);
                assert(tail.drop_last() =~= self@.lines.take(i as int));
                assert(tail.last() == self@.lines[i as int]);
                if i == 0 {
                    assert(r@ =~= crate::text::spec_join_lines(tail));
                } else {
                    assert(r@ =~= crate::text::spec_join_lines(self@.lines.take(i as int))
                        + seq!['\n'] + self@.lines[i as int]);
                    assert(r@ =~= crate::text::spec_join_lines(tail));
                }
            }
            i = i + 1;
        }
        assert(self@.lines.take(n as int) =~= self@.lines);
        r
    }

    /// Inserts a character at the cursor.
    pub fn insert_char(&mut self, c: char)
        requires
            old(self)@.wf(),
            old(self)@.cur().len() < usize::MAX,
        ensures
            final(self)@.wf(),
            final(self)@ == spec_insert_char(old(self)@, c),
    {
        let mut line = self.lines.remove(self.cursor_line);
        line.insert(self.cursor_col, c);
        self.lines.insert(self.cursor_line, line);
        self.cursor_col = self.cursor_col + 1;
        assert(self@.lines =~= spec_insert_char(old(self)@, c).lines);
    }

    /// Backspace at the cursor; see `spec_backspace`.
    pub fn delete_before_cursor(&mut self)
        requires
            old(self)@.wf(),
        ensures
            final(self)@.wf(),
            final(self)@ == spec_backspace(old(self)@),
    {
        if self.cursor_col > 0 {
            let mut line = self.lines.remove(self.cursor_line);
            line.remove(self.cursor_col - 1);
            self.lines.insert(self.cursor_line, line);
            self.cursor_col = self.cursor_col - 1;
            assert(self@.lines =~= spec_backspace(old(self)@).lines);
        } else if self.cursor_line > 0 {
            let removed = self.lines.remove(self.cursor_line);
            let mut prev = self.lines.remove(self.cursor_line - 1);
            let new_col = prev.len();
            let mut j: usize = 0;
            while j < removed.len()
                invariant
                    j <= removed@.len(),
                    prev@ == old(self)@.lines[old(self)@.line - 1] + removed@.take(j as int),
                    removed@ == old(self)@.lines[old(self)@.line],
                decreases removed@.len() - j,
            {
                prev.push(removed[j]);
                assert(prev@ =~= old(self)@.lines[old(self)@.line - 1] + removed@.take(
                    j + 1 as int,
                ));
                j = j + 1;
            }
            assert(prev@ =~= old(self)@.lines[old(self)@.line - 1]
                + old(self)@.lines[old(self)@.line]);
            self.lines.insert(self.cursor_line - 1, prev);
            self.cursor_line = self.cursor_line - 1;
            self.cursor_col = new_col;
            assert(self@.lines =~= spec_backspace(old(self)@).lines);
        }
    }

    /// Enter: splits the current line at the cursor; see `spec_split`.
    pub fn split_at_cursor(&mut self)
        requires
            old(self)@.wf(),
        ensures
            final(self)@.wf(),
            final(self)@ == spec_split(old(self)@),
    {
        let mut line = self.lines.remove(self.cursor_line);
        let mut rest: Vec<char> = Vec::new();
        let mut j: usize = self.cursor_col;
        while j < line.len()
            invariant
                self.cursor_col <= j <= line@.len(),
                line@ == old(self)@.cur(),
                rest@ == line@.subrange(self.cursor_col as int, j as int),
            decreases line@.len() - j,
        {
            rest.push(line[j]);
            assert(rest@ =~= line@.subrange(self.cursor_col as int, j + 1 as int));
            j = j + 1;
        }
        line.truncate(self.cursor_col);
        self.lines.insert(self.cursor_line, line);
        // the length fits in usize, so the index below cannot overflow
        let n = self.lines.len();
        let _ = n;
        self.lines.insert(self.cursor_line + 1, rest);
        self.cursor_line = self.cursor_line + 1;
        self.cursor_col = 0;
        assert(self@.lines =~= spec_split(old(self)@).lines);
    }

    /// Moves left one character, wrapping to the end of the previous line
    /// exactly once at a line start; a no-op at the buffer start.
    pub fn move_left(&mut self)
        requires
            old(self)@.wf(),
        ensures
            final(self)@.wf(),
            final(self)@ == spec_move_left(old(self)@),
    {
        if self.cursor_col > 0 {
            self.cursor_col = self.cursor_col - 1;
        } else if self.cursor_line > 0 {
            self.cursor_line = self.cursor_line - 1;
            self.cursor_col = self.lines[self.cursor_line].len();
        }
    }

    /// Moves right one character, wrapping to the start of the next line
    /// exactly once at a line end; a no-op at the buffer end.
    pub fn move_right(&mut self)
        requires
            old(self)@.wf(),
        ensures
            final(self)@.wf(),
            final(self)@ == spec_move_right(old(self)@),
    {
        let n = self.lines.len();
        if self.cursor_col < self.lines[self.cursor_line].len() {
            self.cursor_col = self.cursor_col + 1;
        } else if self.cursor_line + 1 < n {
            self.cursor_line = self.cursor_line + 1;
            self.cursor_col = 0;
        }
    }


    /// Moves right one character on the current line, stopping at the line
    /// end (the vim `a` motion before entering insert mode).
    pub fn move_right_in_line(&mut self)
        requires
            old(self)@.wf(),
        ensures
            final(self)@.wf(),
            final(self)@ == spec_move_right_in_line(old(self)@),
    {
        if self.cursor_col < self.lines[self.cursor_line].len() {
            self.cursor_col = self.cursor_col + 1;
        }
    }

    /// Moves up one line, the column clamping to the target line's length; a
    /// no-op on the first line.
    pub fn move_up(&mut self)
        requires
            old(self)@.wf(),
        ensures
            final(self)@.wf(),
            final(self)@ == spec_move_up(old(self)@),
    {
        if self.cursor_line > 0 {
            self.cursor_line = self.cursor_line - 1;
            let len = self.lines[self.cursor_line].len();
            if self.cursor_col > len {
                self.cursor_col = len;
            }
        }
    }

    /// Moves down one line, the column clamping to the target line's length;
    /// a no-op on the last line.
    pub fn move_down(&mut self)
        requires
            old(self)@.wf(),
        ensures
            final(self)@.wf(),
            final(self)@ == spec_move_down(old(self)@),
    {
        let n = self.lines.len();
        if self.cursor_line + 1 < n {
            self.cursor_line = self.cursor_line + 1;
            let len = self.lines[self.cursor_line].len();
            if self.cursor_col > len {
                self.cursor_col = len;
            }
        }
    }

    /// Moves to the start of the current line.
    pub fn line_start(&mut self)
        requires
            old(self)@.wf(),
        ensures
            final(self)@.wf(),
            final(self)@ == spec_line_start(old(self)@),
    {
        self.cursor_col = 0;
    }

    /// Moves to the end of the current line.
    pub fn line_end(&mut self)
        requires
            old(self)@.wf(),
        ensures
            final(self)@.wf(),
            final(self)@ == spec_line_end(old(self)@),
    {
        self.cursor_col = self.lines[self.cursor_line].len();
    }

    /// Jumps to the first line; see `spec_goto_first`.
    pub fn goto_first_line(&mut self)
        requires
            old(self)@.wf(),
        ensures
            final(self)@.wf(),
            final(self)@ == spec_goto_first(old(self)@),
    {
        self.cursor_line = 0;
        let len = self.lines[0].len();
        if self.cursor_col > len {
            self.cursor_col = len;
        }
    }

    /// Jumps to the last line; see `spec_goto_last`.
    pub fn goto_last_line(&mut self)
        requires
            old(self)@.wf(),
        ensures
            final(self)@.wf(),
            final(self)@ == spec_goto_last(old(self)@),
    {
        self.cursor_line = self.lines.len() - 1;
        let len = self.lines[self.cursor_line].len();
        if self.cursor_col > len {
            self.cursor_col = len;
        }
    }

    /// Removes the cursor's line and returns it (for the register); see
    /// `spec_delete_line`.
    pub fn delete_current_line(&mut self) -> (removed: Vec<char>)
        requires
            old(self)@.wf(),
        ensures
            final(self)@.wf(),
            final(self)@ == spec_delete_line(old(self)@),
            removed@ == old(self)@.cur(),
    {
        let removed = self.lines.remove(self.cursor_line);
        if self.lines.len() == 0 {
            self.lines.push(Vec::new());
            self.cursor_line = 0;
            self.cursor_col = 0;
            assert(self@.lines =~= spec_delete_line(old(self)@).lines);
        } else {
            if self.cursor_line >= self.lines.len() {
                self.cursor_line = self.lines.len() - 1;
            }
            let len = self.lines[self.cursor_line].len();
            if self.cursor_col > len {
                self.cursor_col = len;
            }
            assert(self@.lines =~= spec_delete_line(old(self)@).lines);
        }
        removed
    }


    /// Word-forward on the current line; see `spec_word_forward`. A word is
    /// a maximal run of word characters; the cursor lands on the start of
    /// the next word, or the line end.
    pub fn word_forward(&mut self)
        requires
            old(self)@.wf(),
        ensures
            final(self)@.wf(),
            final(self)@ == spec_word_forward_buf(old(self)@),
    {
        let ghost l = self@.cur();
        let line = &self.lines[self.cursor_line];
        let n = line.len();
        let mut j: usize = self.cursor_col;
        proof {
            lemma_skip_word_chars(l, j as int);
        }
        while j < n && crate::word_char(line[j])
            invariant
                0 <= j <= n == l.len(),
                line@ == l,
                skip_word_chars(l, j as int) == skip_word_chars(l, old(self)@.col),
            decreases n - j,
        {
            j = j + 1;
        }
        proof {
            lemma_skip_non_word_chars(l, j as int);
        }
        while j < n && !crate::word_char(line[j])
            invariant
                0 <= j <= n == l.len(),
                line@ == l,
                skip_non_word_chars(l, j as int) == spec_word_forward(l, old(self)@.col),
            decreases n - j,
        {
            j = j + 1;
        }
        self.cursor_col = j;
    }

    /// Word-backward on the current line; see `spec_word_backward`. The
    /// cursor lands on the start of the word it was in, or of the previous
    /// word; a no-op at column zero.
    pub fn word_backward(&mut self)
        requires
            old(self)@.wf(),
        ensures
            final(self)@.wf(),
            final(self)@ == spec_word_backward_buf(old(self)@),
    {
        let ghost l = self@.cur();
        if self.cursor_col == 0 {
            return ;
        }
        let line = &self.lines[self.cursor_line];
        let mut j: usize = self.cursor_col - 1;
        while j > 0 && !crate::word_char(line[j])
            invariant
                0 <= j < l.len(),
                line@ == l,
                skip_non_word_back(l, j as int) == skip_non_word_back(
                    l,
                    old(self)@.col - 1,
                ),
            decreases j,
        {
            j = j - 1;
        }
        while j > 0 && crate::word_char(line[j - 1])
            invariant
                0 <= j < l.len(),
                line@ == l,
                skip_word_back(l, j as int) == spec_word_backward(l, old(self)@.col),
            decreases j,
        {
            j = j - 1;
        }
        self.cursor_col = j;
    }

    /// Copies the cursor's line without removing it (for the register).
    pub fn yank_current_line(&self) -> (l: Vec<char>)
        requires
            self@.wf(),
        ensures
            l@ == self@.cur(),
    {
        let l = &self.lines[self.cursor_line];
        l.clone()
    }

    /// Inserts the register as a new line immediately below the cursor's
    /// line and moves the cursor to its start; see `spec_paste_after`.
    pub fn paste_after(&mut self, reg: &Vec<char>)
        requires
            old(self)@.wf(),
        ensures
            final(self)@.wf(),
            final(self)@ == spec_paste_after(old(self)@, reg@),
    {
        let line = reg.clone();
        // the length fits in usize, so the index below cannot overflow
        let n = self.lines.len();
        let _ = n;
        self.lines.insert(self.cursor_line + 1, line);
        self.cursor_line = self.cursor_line + 1;
        self.cursor_col = 0;
        assert(self@.lines =~= spec_paste_after(old(self)@, reg@).lines);
    }
}

} // verus!
