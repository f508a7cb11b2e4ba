use termtask::text_buffer::TextBuffer;

fn chars(s: &str) -> Vec<char> {
    s.chars().collect()
}

fn buffer_from(lines: &[&str]) -> TextBuffer {
    let v: Vec<Vec<char>> = lines.iter().map(|l| chars(l)).collect();
    TextBuffer::from_lines(v)
}

fn all_lines(b: &TextBuffer) -> Vec<String> {
    let mut out = Vec::new();
    let mut i = 0;
    while i < b.line_count() {
        out.push(b.line_at(i).into_iter().collect::<String>());
        i += 1;
    }
    out
}

#[test]
fn new_buffer_is_one_empty_line() {
    let b = TextBuffer::new();
    assert_eq!(b.line_count(), 1);
    assert_eq!(b.line_at(0), Vec::<char>::new());
    assert_eq!(b.cursor_line(), 0);
    assert_eq!(b.cursor_col(), 0);
}

#[test]
fn inserts_then_equal_backspaces_restore_state() {
    let mut b = buffer_from(&["hello", "world"]);
    b.move_down();
    b.move_right();
    b.move_right();
    let lines_before = all_lines(&b);
    let pos_before = (b.cursor_line(), b.cursor_col());
    for c in "xyz".chars() {
        b.insert_char(c);
    }
    for _ in 0..3 {
        b.delete_before_cursor();
    }
    assert_eq!(all_lines(&b), lines_before);
    assert_eq!((b.cursor_line(), b.cursor_col()), pos_before);
}

#[test]
fn backspace_at_line_start_joins_lines() {
    let mut b = buffer_from(&["ab", "cd"]);
    b.move_down();
    assert_eq!(b.cursor_line(), 1);
    assert_eq!(b.cursor_col(), 0);
    b.delete_before_cursor();
    assert_eq!(all_lines(&b), vec!["abcd".to_string()]);
    assert_eq!(b.cursor_line(), 0);
    assert_eq!(b.cursor_col(), 2);
}

#[test]
fn backspace_at_buffer_start_is_noop() {
    let mut b = buffer_from(&["ab"]);
    b.delete_before_cursor();
    assert_eq!(all_lines(&b), vec!["ab".to_string()]);
    assert_eq!(b.cursor_col(), 0);
}

#[test]
fn split_at_cursor_breaks_line() {
    let mut b = buffer_from(&["abcd"]);
    b.move_right();
    b.move_right();
    b.split_at_cursor();
    assert_eq!(all_lines(&b), vec!["ab".to_string(), "cd".to_string()]);
    assert_eq!(b.cursor_line(), 1);
    assert_eq!(b.cursor_col(), 0);
}

#[test]
fn horizontal_moves_wrap_once_at_line_edges() {
    let mut b = buffer_from(&["ab", "cd"]);
    b.line_end();
    b.move_right();
    assert_eq!((b.cursor_line(), b.cursor_col()), (1, 0));
    b.move_left();
    assert_eq!((b.cursor_line(), b.cursor_col()), (0, 2));
}

#[test]
fn vertical_moves_clamp_column() {
    let mut b = buffer_from(&["abcdef", "ab"]);
    b.line_end();
    assert_eq!(b.cursor_col(), 6);
    b.move_down();
    assert_eq!((b.cursor_line(), b.cursor_col()), (1, 2));
    b.move_up();
    assert_eq!((b.cursor_line(), b.cursor_col()), (0, 2));
}

#[test]
fn goto_first_and_last_line() {
    let mut b = buffer_from(&["one", "two", "three"]);
    b.move_down();
    b.goto_last_line();
    assert_eq!(b.cursor_line(), 2);
    b.goto_first_line();
    assert_eq!(b.cursor_line(), 0);
}

#[test]
fn goto_on_single_line_buffer_is_noop() {
    let mut b = buffer_from(&["only"]);
    b.move_right();
    b.goto_first_line();
    assert_eq!((b.cursor_line(), b.cursor_col()), (0, 1));
    b.goto_last_line();
    assert_eq!((b.cursor_line(), b.cursor_col()), (0, 1));
}

#[test]
fn delete_last_line_leaves_one_empty_line() {
    let mut b = buffer_from(&["solo"]);
    let removed = b.delete_current_line();
    assert_eq!(removed, chars("solo"));
    assert_eq!(all_lines(&b), vec!["".to_string()]);
    assert_eq!((b.cursor_line(), b.cursor_col()), (0, 0));
}

#[test]
fn delete_middle_line_clamps_cursor() {
    let mut b = buffer_from(&["one", "two", "three"]);
    b.move_down();
    let removed = b.delete_current_line();
    assert_eq!(removed, chars("two"));
    assert_eq!(all_lines(&b), vec!["one".to_string(), "three".to_string()]);
    assert_eq!(b.cursor_line(), 1);
}

#[test]
fn paste_after_inserts_below_and_moves_cursor() {
    let mut b = buffer_from(&["one", "two"]);
    let reg = chars("new");
    b.paste_after(&reg);
    assert_eq!(
        all_lines(&b),
        vec!["one".to_string(), "new".to_string(), "two".to_string()]
    );
    assert_eq!((b.cursor_line(), b.cursor_col()), (1, 0));
}

#[test]
fn word_forward_lands_on_next_word_start() {
    let mut b = buffer_from(&["foo  bar baz"]);
    b.word_forward();
    assert_eq!(b.cursor_col(), 5);
    b.word_forward();
    assert_eq!(b.cursor_col(), 9);
    b.word_forward();
    assert_eq!(b.cursor_col(), 12);
}

#[test]
fn word_backward_lands_on_word_start() {
    let mut b = buffer_from(&["foo  bar baz"]);
    b.line_end();
    b.word_backward();
    assert_eq!(b.cursor_col(), 9);
    b.word_backward();
    assert_eq!(b.cursor_col(), 5);
    b.word_backward();
    assert_eq!(b.cursor_col(), 0);
}

#[test]
fn word_forward_then_backward_never_passes_start() {
    let line = "al-pha  beta9 _x";
    for start in 0..=line.chars().count() {
        let mut b = buffer_from(&[line]);
        for _ in 0..start {
            b.move_right();
        }
        let col0 = b.cursor_col();
        b.word_forward();
        b.word_backward();
        assert!(b.cursor_col() <= col0, "start {} ended at {}", col0, b.cursor_col());
    }
}
