//! The line editor behind the terminal post editor.
//!
//! The editor holds the post as a list of lines and a cursor. Every editing
//! and movement operation is stated as a function on `EditorModel`, and the
//! executable operations are proved to follow these functions and to keep
//! the cursor inside the text.
use vstd::prelude::*;
use crate::text::{
    chars_of, is_whitespace, is_ws, join, lines_vec, push_all, push_char, split, string_of,
    strip_cr, text_lines, views, Sep,
};

verus! {

/// The abstract state of the editor.
pub struct EditorModel {
    /// The lines of the text, without line terminators.
    pub lines: Seq<Seq<char>>,
    /// Cursor line.
    pub line: nat,
    /// Cursor column, counted in characters.
    pub col: nat,
    /// First visible line.
    pub scroll: nat,
}

/// The cursor is on an existing line, at most one past its last character.
pub open spec fn wf(m: EditorModel) -> bool {
    &&& m.lines.len() >= 1
    &&& m.line < m.lines.len()
    &&& m.col <= m.lines[m.line as int].len()
}

/// The same state with a new cursor.
pub open spec fn at(m: EditorModel, line: nat, col: nat) -> EditorModel {
    EditorModel { line, col, ..m }
}

/// The same state with new lines.
pub open spec fn with_lines(m: EditorModel, lines: Seq<Seq<char>>) -> EditorModel {
    EditorModel { lines, ..m }
}

/// Length of the cursor line.
pub open spec fn cur_len(m: EditorModel) -> nat {
    m.lines[m.line as int].len()
}

/// Typing `c` inserts it before the cursor and moves the cursor past it.
pub open spec fn insert_char_spec(m: EditorModel, c: char) -> EditorModel {
    let l = m.lines[m.line as int];
    at(
        with_lines(m, m.lines.update(m.line as int, l.insert(m.col as int, c))),
        m.line,
        m.col + 1,
    )
}

/// Enter splits the cursor line at the cursor; the cursor goes to the start
/// of the new line.
pub open spec fn insert_newline_spec(m: EditorModel) -> EditorModel {
    let l = m.lines[m.line as int];
    let lines = m.lines.update(m.line as int, l.take(m.col as int)).insert(
        m.line + 1 as int,
        l.skip(m.col as int),
    );
    at(with_lines(m, lines), m.line + 1, 0)
}

/// Backspace removes the character before the cursor, or at the start of a
/// line joins it to the previous line.
pub open spec fn delete_before_spec(m: EditorModel) -> EditorModel {
    if m.col > 0 {
        let l = m.lines[m.line as int];
        at(
            with_lines(m, m.lines.update(m.line as int, l.remove(m.col - 1))),
            m.line,
            (m.col - 1) as nat,
        )
    } else if m.line > 0 {
        let prev = m.lines[m.line - 1];
        let lines = m.lines.update(m.line - 1, prev + m.lines[m.line as int]).remove(
            m.line as int,
        );
        at(with_lines(m, lines), (m.line - 1) as nat, prev.len())
    } else {
        m
    }
}

/// Delete removes the character under the cursor, or at the end of a line
/// joins the next line to it.
pub open spec fn delete_at_spec(m: EditorModel) -> EditorModel {
    let l = m.lines[m.line as int];
    if m.col < l.len() {
        with_lines(m, m.lines.update(m.line as int, l.remove(m.col as int)))
    } else if m.line + 1 < m.lines.len() {
        let lines = m.lines.update(m.line as int, l + m.lines[m.line + 1 as int]).remove(m.line + 1 as int);
        with_lines(m, lines)
    } else {
        m
    }
}

/// Left moves one character back, wrapping to the end of the previous line.
pub open spec fn left_spec(m: EditorModel) -> EditorModel {
    if m.col > 0 {
        at(m, m.line, (m.col - 1) as nat)
    } else if m.line > 0 {
        at(m, (m.line - 1) as nat, m.lines[m.line - 1].len())
    } else {
        m
    }
}

/// Right moves one character forward, wrapping to the start of the next line.
pub open spec fn right_spec(m: EditorModel) -> EditorModel {
    if m.col < cur_len(m) {
        at(m, m.line, m.col + 1)
    } else if m.line + 1 < m.lines.len() {
        at(m, m.line + 1, 0)
    } else {
        m
    }
}

/// The column kept when moving to a line of length `len`.
pub open spec fn clamp(col: nat, len: nat) -> nat {
    if col > len {
        len
    } else {
        col
    }
}

/// Up moves to the previous line, keeping the column where the line allows.
pub open spec fn up_spec(m: EditorModel) -> EditorModel {
    if m.line > 0 {
        at(m, (m.line - 1) as nat, clamp(m.col, m.lines[m.line - 1].len()))
    } else {
        m
    }
}

/// Down moves to the next line, keeping the column where the line allows.
pub open spec fn down_spec(m: EditorModel) -> EditorModel {
    if m.line + 1 < m.lines.len() {
        at(m, m.line + 1, clamp(m.col, m.lines[m.line + 1 as int].len()))
    } else {
        m
    }
}

/// Home goes to the start of the line.
pub open spec fn line_start_spec(m: EditorModel) -> EditorModel {
    at(m, m.line, 0)
}

/// End goes to the end of the line.
pub open spec fn line_end_spec(m: EditorModel) -> EditorModel {
    at(m, m.line, cur_len(m))
}

/// Lines moved by a page.
pub open spec fn page_size() -> nat {
    10
}

/// Page up moves ten lines up (at most to the first) and to the line end.
pub open spec fn page_up_spec(m: EditorModel) -> EditorModel {
    let line = if m.line >= page_size() {
        (m.line - page_size()) as nat
    } else {
        0
    };
    line_end_spec(at(m, line, m.col))
}

/// Page down moves ten lines down (at most to the last) and to the line end.
pub open spec fn page_down_spec(m: EditorModel) -> EditorModel {
    let line = if m.line + page_size() < m.lines.len() {
        m.line + page_size()
    } else {
        (m.lines.len() - 1) as nat
    };
    line_end_spec(at(m, line, m.col))
}

/// Ctrl-K removes the cursor line; a sole line is emptied instead.
pub open spec fn delete_line_spec(m: EditorModel) -> EditorModel {
    if m.lines.len() > 1 {
        let lines = m.lines.remove(m.line as int);
        let line = if m.line >= lines.len() {
            (lines.len() - 1) as nat
        } else {
            m.line
        };
        at(with_lines(m, lines), line, 0)
    } else {
        at(with_lines(m, m.lines.update(0, Seq::empty())), 0, 0)
    }
}

/// Index just past the white space and then the word that start at `i`.
pub open spec fn word_end(l: Seq<char>, i: int) -> int
    decreases l.len() - i,
{
    if i < l.len() && is_ws(l[i]) {
        word_end(l, i + 1)
    } else {
        word_rest_end(l, i)
    }
}

/// Index just past the non-white-space characters that start at `i`.
pub open spec fn word_rest_end(l: Seq<char>, i: int) -> int
    decreases l.len() - i,
{
    if 0 <= i < l.len() && !is_ws(l[i]) {
        word_rest_end(l, i + 1)
    } else {
        i
    }
}

/// Ctrl-D deletes from the cursor to the end of the next word.
pub open spec fn delete_word_spec(m: EditorModel) -> EditorModel {
    let l = m.lines[m.line as int];
    if m.col < l.len() {
        let e = word_end(l, m.col as int);
        with_lines(m, m.lines.update(m.line as int, l.take(m.col as int) + l.skip(e)))
    } else {
        m
    }
}

/// Ctrl-U deletes from the start of the line to the cursor.
pub open spec fn delete_to_start_spec(m: EditorModel) -> EditorModel {
    if m.col > 0 {
        let l = m.lines[m.line as int];
        at(with_lines(m, m.lines.update(m.line as int, l.skip(m.col as int))), m.line, 0)
    } else {
        m
    }
}

/// Lines assumed visible when scrolling.
pub open spec fn visible_lines() -> nat {
    20
}

/// Scrolls so that the cursor line is among the visible lines.
pub open spec fn scroll_spec(m: EditorModel) -> EditorModel {
    let s1 = if m.line >= m.scroll + visible_lines() {
        if m.line >= 19 {
            (m.line - 19) as nat
        } else {
            0
        }
    } else {
        m.scroll
    };
    let s2 = if m.line < s1 {
        m.line
    } else {
        s1
    };
    EditorModel { scroll: s2, ..m }
}

/// The text of the editor: the lines joined by newlines.
pub open spec fn content_of(m: EditorModel) -> Seq<char> {
    join(m.lines, seq!['\n'])
}

/// The lines a new editor starts with: those of the text, or one empty line.
pub open spec fn initial_lines(s: Seq<char>) -> Seq<Seq<char>> {
    if text_lines(s).len() == 0 {
        seq![Seq::<char>::empty()]
    } else {
        text_lines(s)
    }
}

/// The keys the editor reacts to.
#[derive(Clone, Copy, PartialEq, Eq, Structural, Debug)]
pub enum EditorKey {
    Char(char),
    Enter,
    Backspace,
    Delete,
    Left,
    Right,
    Up,
    Down,
    Home,
    End,
    PageUp,
    PageDown,
    Tab,
    Other,
}

/// The effect of a key: the new state and whether the text was modified.
pub open spec fn key_spec(m: EditorModel, key: EditorKey, ctrl: bool) -> (EditorModel, bool) {
    if ctrl && key == EditorKey::Char('k') {
        (delete_line_spec(m), true)
    } else if ctrl && key == EditorKey::Char('d') {
        (delete_word_spec(m), true)
    } else if ctrl && key == EditorKey::Char('u') {
        (delete_to_start_spec(m), true)
    } else if ctrl && key == EditorKey::Char('a') {
        (line_start_spec(m), false)
    } else if ctrl && key == EditorKey::Char('e') {
        (line_end_spec(m), false)
    } else {
        match key {
            EditorKey::Char(c) => (insert_char_spec(m, c), true),
            EditorKey::Enter => (insert_newline_spec(m), true),
            EditorKey::Backspace => (delete_before_spec(m), true),
            EditorKey::Delete => (delete_at_spec(m), true),
            EditorKey::Left => (scroll_spec(left_spec(m)), false),
            EditorKey::Right => (scroll_spec(right_spec(m)), false),
            EditorKey::Up => (scroll_spec(up_spec(m)), false),
            EditorKey::Down => (scroll_spec(down_spec(m)), false),
            EditorKey::Home => (scroll_spec(line_start_spec(m)), false),
            EditorKey::End => (scroll_spec(line_end_spec(m)), false),
            EditorKey::PageUp => (scroll_spec(page_up_spec(m)), false),
            EditorKey::PageDown => (scroll_spec(page_down_spec(m)), false),
            EditorKey::Tab => (
                insert_char_spec(
                    insert_char_spec(insert_char_spec(insert_char_spec(m, ' '), ' '), ' '),
                    ' ',
                ),
                true,
            ),
            EditorKey::Other => (m, false),
        }
    }
}

/// Text editor component.
pub struct Editor {
    /// The content being edited
    content: Vec<Vec<char>>,
    /// Current cursor position (line, column)
    cursor: (usize, usize),
    /// Current scroll offset
    scroll: (usize, usize),
}

impl Editor {
    /// The abstract state.
    pub closed spec fn model(&self) -> EditorModel {
        EditorModel {
            lines: views(self.content@),
            line: self.cursor.0 as nat,
            col: self.cursor.1 as nat,
            scroll: self.scroll.0 as nat,
        }
    }

    /// How far the view is scrolled sideways.
    pub closed spec fn sideways_scroll(&self) -> nat {
        self.scroll.1 as nat
    }

    /// The editor is in a consistent state; the view never scrolls
    /// sideways.
    pub closed spec fn inv(&self) -> bool {
        &&& wf(self.model())
        &&& self.sideways_scroll() == 0
    }

    /// A consistent editor has a well-formed model, so the laws on models
    /// apply to it, and its view is not scrolled sideways.
    pub proof fn lemma_inv_wf(&self)
        requires
            self.inv(),
        ensures
            wf(self.model()),
            self.sideways_scroll() == 0,
    {
    }
}

impl Editor {
    /// Replaces line `i` by `row`.
    fn set_line(&mut self, i: usize, row: Vec<char>)
        requires
            i < old(self).content@.len(),
        ensures
            final(self).model() == with_lines(
                old(self).model(),
                old(self).model().lines.update(i as int, row@),
            ),
            final(self).content@.len() == old(self).content@.len(),
            final(self).cursor == old(self).cursor,
            final(self).scroll == old(self).scroll,
    {
        self.content.set(i, row);
        assert(views(self.content@) =~= views(old(self).content@).update(i as int, row@));
    }

    /// Insert a character at the cursor position.
    pub fn insert_char(&mut self, c: char)
        requires
            old(self).inv(),
        ensures
            final(self).inv(),
            final(self).model() == insert_char_spec(old(self).model(), c),
    {
        let (line, col) = self.cursor;
        let mut row = self.content[line].clone();
        assert(row@ =~= self.content@[line as int]@);
        row.insert(col, c);
        let n = row.len();
        let new_col = col + 1;
        self.set_line(line, row);
        self.cursor.1 = new_col;
    }

    /// Insert a newline at the cursor position.
    pub fn insert_newline(&mut self)
        requires
            old(self).inv(),
        ensures
            final(self).inv(),
            final(self).model() == insert_newline_spec(old(self).model()),
    {
        let (line, col) = self.cursor;
        let mut left = self.content[line].clone();
        assert(left@ =~= self.content@[line as int]@);
        let right = left.split_off(col);
        self.set_line(line, left);
        let n = self.content.len();
        self.content.insert(line + 1, right);
        assert(views(self.content@) =~= insert_newline_spec(old(self).model()).lines);
        self.cursor = (line + 1, 0);
    }

    /// Delete the character before the cursor.
    pub fn delete_char_before_cursor(&mut self)
        requires
            old(self).inv(),
        ensures
            final(self).inv(),
            final(self).model() == delete_before_spec(old(self).model()),
    {
        let (line, col) = self.cursor;
        if col > 0 {
            let mut row = self.content[line].clone();
            assert(row@ =~= self.content@[line as int]@);
            row.remove(col - 1);
            self.set_line(line, row);
            self.cursor.1 = col - 1;
        } else if line > 0 {
            let mut current = self.content.remove(line);
            let mut prev = self.content[line - 1].clone();
            assert(prev@ =~= old(self).content@[line - 1]@);
            let prev_len = prev.len();
            prev.append(&mut current);
            self.set_line(line - 1, prev);
            assert(views(self.content@) =~= delete_before_spec(old(self).model()).lines);
            self.cursor = (line - 1, prev_len);
        }
    }

    /// Delete the character at the cursor.
    pub fn delete_char_at_cursor(&mut self)
        requires
            old(self).inv(),
        ensures
            final(self).inv(),
            final(self).model() == delete_at_spec(old(self).model()),
    {
        let (line, col) = self.cursor;
        if col < self.content[line].len() {
            let mut row = self.content[line].clone();
            assert(row@ =~= self.content@[line as int]@);
            row.remove(col);
            self.set_line(line, row);
        } else if line < self.content.len() - 1 {
            let mut next = self.content.remove(line + 1);
            let mut row = self.content[line].clone();
            assert(row@ =~= old(self).content@[line as int]@);
            row.append(&mut next);
            self.set_line(line, row);
            assert(views(self.content@) =~= delete_at_spec(old(self).model()).lines);
        }
    }

    /// Move cursor left.
    pub fn move_cursor_left(&mut self)
        requires
            old(self).inv(),
        ensures
            final(self).inv(),
            final(self).model() == left_spec(old(self).model()),
    {
        if self.cursor.1 > 0 {
            self.cursor.1 = self.cursor.1 - 1;
        } else if self.cursor.0 > 0 {
            self.cursor.0 = self.cursor.0 - 1;
            self.cursor.1 = self.content[self.cursor.0].len();
        }
    }

    /// Move cursor right.
    pub fn move_cursor_right(&mut self)
        requires
            old(self).inv(),
        ensures
            final(self).inv(),
            final(self).model() == right_spec(old(self).model()),
    {
        let (line, col) = self.cursor;
        if col < self.content[line].len() {
            self.cursor.1 = col + 1;
        } else if line < self.content.len() - 1 {
            self.cursor = (line + 1, 0);
        }
    }

    /// Move cursor up.
    pub fn move_cursor_up(&mut self)
        requires
            old(self).inv(),
        ensures
            final(self).inv(),
            final(self).model() == up_spec(old(self).model()),
    {
        if self.cursor.0 > 0 {
            self.cursor.0 = self.cursor.0 - 1;
            let line_len = self.content[self.cursor.0].len();
            if self.cursor.1 > line_len {
                self.cursor.1 = line_len;
            }
        }
    }

    /// Move cursor down.
    pub fn move_cursor_down(&mut self)
        requires
            old(self).inv(),
        ensures
            final(self).inv(),
            final(self).model() == down_spec(old(self).model()),
    {
        if self.cursor.0 < self.content.len() - 1 {
            self.cursor.0 = self.cursor.0 + 1;
            let line_len = self.content[self.cursor.0].len();
            if self.cursor.1 > line_len {
                self.cursor.1 = line_len;
            }
        }
    }

    /// Move cursor to start of line.
    pub fn move_cursor_to_line_start(&mut self)
        requires
            old(self).inv(),
        ensures
            final(self).inv(),
            final(self).model() == line_start_spec(old(self).model()),
    {
        self.cursor.1 = 0;
    }

    /// Move cursor to end of line.
    pub fn move_cursor_to_line_end(&mut self)
        requires
            old(self).model().line < old(self).model().lines.len(),
        ensures
            final(self).model() == line_end_spec(old(self).model()),
            final(self).sideways_scroll() == old(self).sideways_scroll(),
    {
        let line = self.cursor.0;
        self.cursor.1 = self.content[line].len();
    }

    /// Page up.
    pub fn page_up(&mut self)
        requires
            old(self).inv(),
        ensures
            final(self).inv(),
            final(self).model() == page_up_spec(old(self).model()),
    {
        let page_size: usize = 10;
        if self.cursor.0 >= page_size {
            self.cursor.0 = self.cursor.0 - page_size;
        } else {
            self.cursor.0 = 0;
        }
        self.move_cursor_to_line_end();
    }

    /// Page down.
    pub fn page_down(&mut self)
        requires
            old(self).inv(),
        ensures
            final(self).inv(),
            final(self).model() == page_down_spec(old(self).model()),
    {
        let page_size: usize = 10;
        if self.cursor.0 < self.content.len() - page_size.min(self.content.len())
            && self.cursor.0 + page_size < self.content.len() {
            self.cursor.0 = self.cursor.0 + page_size;
        } else {
            self.cursor.0 = self.content.len() - 1;
        }
        self.move_cursor_to_line_end();
    }

    /// Delete the current line.
    pub fn delete_current_line(&mut self)
        requires
            old(self).inv(),
        ensures
            final(self).inv(),
            final(self).model() == delete_line_spec(old(self).model()),
    {
        let line = self.cursor.0;
        if self.content.len() > 1 {
            self.content.remove(line);
            assert(views(self.content@) =~= views(old(self).content@).remove(line as int));
            if line >= self.content.len() {
                self.cursor.0 = self.content.len() - 1;
            }
            self.cursor.1 = 0;
        } else {
            self.set_line(0, Vec::new());
            self.cursor = (0, 0);
        }
    }

    /// Delete from cursor to end of current word.
    pub fn delete_word(&mut self)
        requires
            old(self).inv(),
        ensures
            final(self).inv(),
            final(self).model() == delete_word_spec(old(self).model()),
    {
        let (line, col) = self.cursor;
        let row = self.content[line].clone();
        assert(row@ =~= self.content@[line as int]@);
        if col < row.len() {
            let mut end_pos = col;
            while end_pos < row.len() && is_whitespace(row[end_pos])
                invariant
                    col <= end_pos <= row@.len(),
                    word_end(row@, col as int) == word_end(row@, end_pos as int),
                decreases row@.len() - end_pos,
            {
                end_pos += 1;
            }
            assert(word_end(row@, end_pos as int) == word_rest_end(row@, end_pos as int));
            while end_pos < row.len() && !is_whitespace(row[end_pos])
                invariant
                    col <= end_pos <= row@.len(),
                    word_end(row@, col as int) == word_rest_end(row@, end_pos as int),
                decreases row@.len() - end_pos,
            {
                end_pos += 1;
            }
            let mut kept: Vec<char> = Vec::new();
            let mut i: usize = 0;
            while i < col
                invariant
                    i <= col <= row@.len(),
                    kept@ == row@.take(i as int),
                decreases col - i,
            {
                kept.push(row[i]);
                assert(kept@ =~= row@.take(i + 1));
                i += 1;
            }
            let mut j = end_pos;
            while j < row.len()
                invariant
                    end_pos <= j <= row@.len(),
                    kept@ == row@.take(col as int) + row@.subrange(end_pos as int, j as int),
                decreases row@.len() - j,
            {
                kept.push(row[j]);
                assert(kept@ =~= row@.take(col as int) + row@.subrange(end_pos as int, j + 1));
                j += 1;
            }
            assert(row@.subrange(end_pos as int, row@.len() as int) =~= row@.skip(end_pos as int));
            self.set_line(line, kept);
        }
    }

    /// Delete from cursor to start of line.
    pub fn delete_to_line_start(&mut self)
        requires
            old(self).inv(),
        ensures
            final(self).inv(),
            final(self).model() == delete_to_start_spec(old(self).model()),
    {
        let (line, col) = self.cursor;
        if col > 0 {
            let mut row = self.content[line].clone();
            assert(row@ =~= self.content@[line as int]@);
            let rest = row.split_off(col);
            self.set_line(line, rest);
            self.cursor.1 = 0;
        }
    }

    /// Update scroll position to keep cursor visible.
    pub fn update_scroll(&mut self)
        requires
            old(self).inv(),
        ensures
            final(self).inv(),
            final(self).model() == scroll_spec(old(self).model()),
    {
        let cursor_line = self.cursor.0;
        let visible_lines: usize = 20;
        if cursor_line >= self.scroll.0 && cursor_line - self.scroll.0 >= visible_lines {
            self.scroll.0 = if cursor_line >= visible_lines - 1 {
                cursor_line - (visible_lines - 1)
            } else {
                0
            };
        }
        if cursor_line < self.scroll.0 {
            self.scroll.0 = cursor_line;
        }
    }
}

impl Editor {
    /// Create a new editor with the given content.
    pub fn new(content: String) -> (res: Editor)
        ensures
            res.inv(),
            res.model() == (EditorModel {
                lines: initial_lines(content@),
                line: 0,
                col: 0,
                scroll: 0,
            }),
    {
        let v = chars_of(content.as_str());
        let mut lines = lines_vec(&v);
        if lines.len() == 0 {
            lines.push(Vec::new());
            assert(views(lines@) =~= initial_lines(v@));
        }
        Editor { content: lines, cursor: (0, 0), scroll: (0, 0) }
    }

    /// Get the current content as a string.
    pub fn get_content(&self) -> (res: String)
        ensures
            res@ == content_of(self.model()),
    {
        let nl: Vec<char> = vec!['\n'];
        assert(nl@ =~= seq!['\n']);
        crate::text::join_all(&self.content, &nl)
    }

    /// Handle a key event and return true if the content was modified.
    pub fn handle_key_event(&mut self, key: EditorKey, ctrl: bool) -> (res: bool)
        requires
            old(self).inv(),
        ensures
            final(self).inv(),
            (final(self).model(), res) == key_spec(old(self).model(), key, ctrl),
    {
        if ctrl {
            match key {
                EditorKey::Char('k') => {
                    self.delete_current_line();
                    return true;
                },
                EditorKey::Char('d') => {
                    self.delete_word();
                    return true;
                },
                EditorKey::Char('u') => {
                    self.delete_to_line_start();
                    return true;
                },
                EditorKey::Char('a') => {
                    self.move_cursor_to_line_start();
                    return false;
                },
                EditorKey::Char('e') => {
                    self.move_cursor_to_line_end();
                    return false;
                },
                _ => {},
            }
        }
        match key {
            EditorKey::Char(c) => {
                self.insert_char(c);
                true
            },
            EditorKey::Enter => {
                self.insert_newline();
                true
            },
            EditorKey::Backspace => {
                self.delete_char_before_cursor();
                true
            },
            EditorKey::Delete => {
                self.delete_char_at_cursor();
                true
            },
            EditorKey::Left => {
                self.move_cursor_left();
                self.update_scroll();
                false
            },
            EditorKey::Right => {
                self.move_cursor_right();
                self.update_scroll();
                false
            },
            EditorKey::Up => {
                self.move_cursor_up();
                self.update_scroll();
                false
            },
            EditorKey::Down => {
                self.move_cursor_down();
                self.update_scroll();
                false
            },
            EditorKey::Home => {
                self.move_cursor_to_line_start();
                self.update_scroll();
                false
            },
            EditorKey::End => {
                self.move_cursor_to_line_end();
                self.update_scroll();
                false
            },
            EditorKey::PageUp => {
                self.page_up();
                self.update_scroll();
                false
            },
            EditorKey::PageDown => {
                self.page_down();
                self.update_scroll();
                false
            },
            EditorKey::Tab => {
                self.insert_char(' ');
                self.insert_char(' ');
                self.insert_char(' ');
                self.insert_char(' ');
                true
            },
            EditorKey::Other => false,
        }
    }

    /// Current cursor position (line, column).
    pub fn cursor(&self) -> (res: (usize, usize))
        ensures
            res.0 == self.model().line,
            res.1 == self.model().col,
    {
        self.cursor
    }

    /// First visible line.
    pub fn scroll_line(&self) -> (res: usize)
        ensures
            res == self.model().scroll,
    {
        self.scroll.0
    }

    /// Number of lines.
    pub fn line_count(&self) -> (res: usize)
        ensures
            res == self.model().lines.len(),
    {
        self.content.len()
    }

    /// The text of line `i`.
    pub fn line_text(&self, i: usize) -> (res: String)
        requires
            i < self.model().lines.len(),
        ensures
            res@ == self.model().lines[i as int],
    {
        string_of(&self.content[i])
    }
}

/// How a piece of an editor line is shown.
#[derive(Clone, Copy, PartialEq, Eq, Structural, Debug)]
pub enum SpanKind {
    Text,
    Header,
    Code,
    Bold,
    Italic,
    Cursor,
}

/// A piece of an editor line and how it is shown.
pub struct HighlightSpan {
    pub text: String,
    pub kind: SpanKind,
}

/// The pieces as text and kind.
pub open spec fn spans_view(v: Seq<HighlightSpan>) -> Seq<(Seq<char>, SpanKind)> {
    v.map_values(|s: HighlightSpan| (s.text@, s.kind))
}

/// The kind of the piece still open at the end of a line.
pub open spec fn open_kind(code: bool, bold: bool, italic: bool) -> SpanKind {
    if code {
        SpanKind::Code
    } else if bold {
        SpanKind::Bold
    } else if italic {
        SpanKind::Italic
    } else {
        SpanKind::Text
    }
}

/// Closes the line: the open piece is added, and an empty line gets one
/// empty text piece.
pub open spec fn hl_finish(
    spans: Seq<(Seq<char>, SpanKind)>,
    cur: Seq<char>,
    code: bool,
    bold: bool,
    italic: bool,
) -> Seq<(Seq<char>, SpanKind)> {
    let sp = if cur.len() > 0 {
        spans.push((cur, open_kind(code, bold, italic)))
    } else {
        spans
    };
    if sp.len() == 0 {
        seq![(Seq::<char>::empty(), SpanKind::Text)]
    } else {
        sp
    }
}

/// The pieces so far with the open piece closed as plain text.
pub open spec fn flush(spans: Seq<(Seq<char>, SpanKind)>, cur: Seq<char>) -> Seq<(Seq<char>, SpanKind)> {
    if cur.len() > 0 {
        spans.push((cur, SpanKind::Text))
    } else {
        spans
    }
}

/// Markdown highlighting of the line `l` from index `i` on, given the pieces
/// found so far, the open piece and which marks are open. A `#` with no open
/// piece starts a header running to the end of the line; a backtick toggles
/// code (the closing backtick is a code piece of its own); `**` toggles bold
/// and `*` italic.
pub open spec fn hl_from(
    l: Seq<char>,
    i: int,
    spans: Seq<(Seq<char>, SpanKind)>,
    cur: Seq<char>,
    code: bool,
    bold: bool,
    italic: bool,
) -> Seq<(Seq<char>, SpanKind)>
    decreases l.len() - i,
{
    if i < 0 || i >= l.len() {
        hl_finish(spans, cur, code, bold, italic)
    } else {
        let c = l[i];
        if c == '#' && cur.len() == 0 {
            hl_finish(spans.push((l.skip(i), SpanKind::Header)), cur, code, bold, italic)
        } else if c == '`' {
            if code {
                hl_from(l, i + 1, flush(spans, cur).push((seq!['`'], SpanKind::Code)), Seq::empty(), false, bold, italic)
            } else {
                hl_from(l, i + 1, flush(spans, cur), seq!['`'], true, bold, italic)
            }
        } else if c == '*' && i + 1 < l.len() && l[i + 1] == '*' {
            hl_from(l, i + 2, flush(spans, cur), seq!['*', '*'], code, !bold, italic)
        } else if c == '*' {
            hl_from(l, i + 1, flush(spans, cur), seq!['*'], code, bold, !italic)
        } else {
            hl_from(l, i + 1, spans, cur.push(c), code, bold, italic)
        }
    }
}

/// The highlighted pieces of a line.
pub open spec fn highlight(l: Seq<char>) -> Seq<(Seq<char>, SpanKind)> {
    hl_from(l, 0, Seq::empty(), Seq::empty(), false, false, false)
}

/// The pieces of the cursor line: one per character, the one under the
/// cursor marked, and a marked blank when the cursor is past the end.
pub open spec fn cursor_spans(l: Seq<char>, col: nat) -> Seq<(Seq<char>, SpanKind)> {
    let chars = Seq::new(
        l.len(),
        |i: int| (seq![l[i]], if i == col { SpanKind::Cursor } else { SpanKind::Text }),
    );
    if col >= l.len() {
        chars.push((seq![' '], SpanKind::Cursor))
    } else {
        chars
    }
}

/// The pieces shown for line `idx` of an editor state.
pub open spec fn line_spans(m: EditorModel, l: Seq<char>, idx: nat) -> Seq<(Seq<char>, SpanKind)> {
    if idx == m.line {
        cursor_spans(l, m.col)
    } else if l.len() == 0 {
        seq![(seq![' '], SpanKind::Text)]
    } else {
        highlight(l)
    }
}

fn flush_into(spans: &mut Vec<HighlightSpan>, cur: &mut Vec<char>)
    ensures
        spans_view(final(spans)@) == flush(spans_view(old(spans)@), old(cur)@),
        final(cur)@ == Seq::<char>::empty(),
{
    if cur.len() > 0 {
        let sp = text_span(cur, SpanKind::Text);
        spans.push(sp);
        assert(spans_view(spans@) =~= spans_view(old(spans)@).push((old(cur)@, SpanKind::Text)));
    }
    *cur = Vec::new();
}

fn text_span(v: &Vec<char>, kind: SpanKind) -> (res: HighlightSpan)
    ensures
        res.text@ == v@,
        res.kind == kind,
{
    HighlightSpan { text: string_of(v), kind }
}

impl Editor {
    /// Simple syntax highlighting for markdown.
    pub fn highlight_line(&self, line: &str) -> (res: Vec<HighlightSpan>)
        ensures
            spans_view(res@) == highlight(line@),
    {
        let l = chars_of(line);
        let n = l.len();
        let mut spans: Vec<HighlightSpan> = Vec::new();
        let mut cur: Vec<char> = Vec::new();
        let mut in_code = false;
        let mut in_bold = false;
        let mut in_italic = false;
        let mut i: usize = 0;
        assert(spans_view(spans@) =~= Seq::<(Seq<char>, SpanKind)>::empty());
        assert(cur@ =~= Seq::<char>::empty());
        while i < n
            invariant
                n == l@.len(),
                i <= n,
                highlight(line@) == hl_from(l@, i as int, spans_view(spans@), cur@, in_code, in_bold, in_italic),
                l@ == line@,
            decreases n - i,
        {
            let c = l[i];
            let ghost sv = spans_view(spans@);
            let ghost cv = cur@;
            let ghost i0 = i as int;
            let ghost (b0, it0, co0) = (in_bold, in_italic, in_code);
            assert(hl_from(l@, i0, sv, cv, co0, b0, it0) == highlight(line@));
            if c == '#' && cur.len() == 0 {
                let mut rest: Vec<char> = Vec::new();
                let mut j = i;
                while j < n
                    invariant
                        i <= j <= n,
                        n == l@.len(),
                        rest@ == l@.subrange(i as int, j as int),
                    decreases n - j,
                {
                    rest.push(l[j]);
                    assert(rest@ =~= l@.subrange(i as int, j + 1));
                    j += 1;
                }
                assert(rest@ =~= l@.skip(i as int));
                spans.push(text_span(&rest, SpanKind::Header));
                assert(spans_view(spans@) =~= sv.push((l@.skip(i as int), SpanKind::Header)));
                return spans;
            }
            if c == '`' {
                flush_into(&mut spans, &mut cur);
                if in_code {
                    let ghost fv = spans_view(spans@);
                    let tick: Vec<char> = vec!['`'];
                    assert(tick@ =~= seq!['`']);
                    spans.push(text_span(&tick, SpanKind::Code));
                    assert(spans_view(spans@) =~= fv.push((seq!['`'], SpanKind::Code)));
                    in_code = false;
                } else {
                    cur.push('`');
                    assert(cur@ =~= seq!['`']);
                    in_code = true;
                }
                i += 1;
            } else if c == '*' && i + 1 < n && l[i + 1] == '*' {
                flush_into(&mut spans, &mut cur);
                cur.push('*');
                cur.push('*');
                assert(cur@ =~= seq!['*', '*']);
                in_bold = !in_bold;
                i += 2;
            } else if c == '*' {
                flush_into(&mut spans, &mut cur);
                cur.push('*');
                assert(cur@ =~= seq!['*']);
                in_italic = !in_italic;
                i += 1;
            } else {
                cur.push(c);
                assert(cur@ =~= cv.push(c));
                i += 1;
            }
        }
        let ghost sv = spans_view(spans@);
        if cur.len() > 0 {
            let kind = if in_code {
                SpanKind::Code
            } else if in_bold {
                SpanKind::Bold
            } else if in_italic {
                SpanKind::Italic
            } else {
                SpanKind::Text
            };
            spans.push(text_span(&cur, kind));
            assert(spans_view(spans@) =~= sv.push((cur@, kind)));
        }
        if spans.len() == 0 {
            spans.push(text_span(&Vec::new(), SpanKind::Text));
            assert(spans_view(spans@) =~= seq![(Seq::<char>::empty(), SpanKind::Text)]);
        }
        spans
    }
}


impl Editor {
    /// The pieces shown for line `line_idx` with text `line`: the cursor
    /// line shows each character on its own with the cursor marked, other
    /// lines are highlighted, and an empty line shows one blank.
    pub fn highlight_line_with_cursor(&self, line: &str, line_idx: usize) -> (res: Vec<HighlightSpan>)
        ensures
            spans_view(res@) == line_spans(self.model(), line@, line_idx as nat),
    {
        if line_idx == self.cursor.0 {
            let col = self.cursor.1;
            let l = chars_of(line);
            let mut out: Vec<HighlightSpan> = Vec::new();
            let mut i: usize = 0;
            while i < l.len()
                invariant
                    i <= l@.len(),
                    l@ == line@,
                    col == self.model().col,
                    spans_view(out@) =~= Seq::new(
                        i as nat,
                        |k: int| (seq![l@[k]], if k == col { SpanKind::Cursor } else { SpanKind::Text }),
                    ),
                decreases l@.len() - i,
            {
                let ghost ov = spans_view(out@);
                let mut one: Vec<char> = Vec::new();
                one.push(l[i]);
                assert(one@ =~= seq![l@[i as int]]);
                let kind = if i == col { SpanKind::Cursor } else { SpanKind::Text };
                out.push(text_span(&one, kind));
                assert(spans_view(out@) =~= ov.push((seq![l@[i as int]], kind)));
                i += 1;
            }
            if col >= l.len() {
                let ghost ov = spans_view(out@);
                let blank: Vec<char> = vec![' '];
                assert(blank@ =~= seq![' ']);
                out.push(text_span(&blank, SpanKind::Cursor));
                assert(spans_view(out@) =~= ov.push((seq![' '], SpanKind::Cursor)));
            }
            out
        } else if line.unicode_len() == 0 {
            let blank: Vec<char> = vec![' '];
            assert(blank@ =~= seq![' ']);
            let out = vec![text_span(&blank, SpanKind::Text)];
            assert(spans_view(out@) =~= seq![(seq![' '], SpanKind::Text)]);
            out
        } else {
            self.highlight_line(line)
        }
    }
}


// ---------------------------------------------------------------------------
// Laws of the editor
// ---------------------------------------------------------------------------

/// Typing a character and then pressing Backspace gives back the state
/// before.
pub proof fn law_insert_then_backspace(m: EditorModel, c: char)
    requires
        wf(m),
    ensures
        delete_before_spec(insert_char_spec(m, c)) == m,
{
    let l = m.lines[m.line as int];
    assert(l.insert(m.col as int, c).remove(m.col as int) =~= l);
    assert(m.lines.update(m.line as int, l.insert(m.col as int, c)).update(m.line as int, l) =~= m.lines);
}

/// Pressing Enter and then Backspace gives back the state before.
pub proof fn law_newline_then_backspace(m: EditorModel)
    requires
        wf(m),
    ensures
        delete_before_spec(insert_newline_spec(m)) == m,
{
    let l = m.lines[m.line as int];
    let lines1 = m.lines.update(m.line as int, l.take(m.col as int)).insert(
        m.line + 1 as int,
        l.skip(m.col as int),
    );
    assert(l.take(m.col as int) + l.skip(m.col as int) =~= l);
    assert(lines1.update(m.line as int, l).remove(m.line + 1 as int) =~= m.lines);
}

/// Moving right and then left gives back the state before, unless the
/// cursor was at the very end of the text, where right does nothing.
pub proof fn law_right_then_left(m: EditorModel)
    requires
        wf(m),
        m.col < cur_len(m) || m.line + 1 < m.lines.len(),
    ensures
        left_spec(right_spec(m)) == m,
{
}

/// Delete: inside a line the character under the cursor goes and the rest
/// of the line closes up; at the end of a line that is not the last, the
/// next line is joined to it and the text has one line fewer; at the end
/// of the last line nothing changes. Every other line stays as it was.
pub proof fn law_delete_joins_lines(m: EditorModel)
    requires
        wf(m),
    ensures
        ({
            let r = delete_at_spec(m);
            let l = m.lines[m.line as int];
            &&& m.col < l.len() ==> r.lines.len() == m.lines.len()
                && r.lines[m.line as int] == l.take(m.col as int) + l.skip(m.col + 1 as int)
                && forall|i: int| 0 <= i < m.lines.len() && i != m.line ==> #[trigger] r.lines[i] == m.lines[i]
            &&& m.col == l.len() && m.line + 1 < m.lines.len() ==> r.lines.len() + 1 == m.lines.len()
                && r.lines[m.line as int] == l + m.lines[m.line + 1 as int]
                && (forall|i: int| 0 <= i < m.line ==> #[trigger] r.lines[i] == m.lines[i])
                && (forall|i: int| m.line < i < r.lines.len() ==> #[trigger] r.lines[i] == m.lines[i + 1])
            &&& m.col == l.len() && m.line + 1 == m.lines.len() ==> r.lines == m.lines
        }),
{
    let l = m.lines[m.line as int];
    if m.col < l.len() {
        assert(l.remove(m.col as int) =~= l.take(m.col as int) + l.skip(m.col + 1 as int));
    }
}

/// Deleting the character under the cursor leaves the cursor where it was.
pub proof fn law_delete_keeps_cursor(m: EditorModel)
    requires
        wf(m),
    ensures
        delete_at_spec(m).line == m.line,
        delete_at_spec(m).col == m.col,
        wf(delete_at_spec(m)),
{
}

proof fn lemma_word_end_bounds(l: Seq<char>, i: int)
    requires
        0 <= i <= l.len(),
    ensures
        i <= word_rest_end(l, i) <= l.len(),
        i <= word_end(l, i) <= l.len(),
    decreases l.len() - i,
{
    if i < l.len() {
        lemma_word_end_bounds(l, i + 1);
    }
}

proof fn lemma_edits_keep_wf(m: EditorModel, c: char)
    requires
        wf(m),
    ensures
        wf(insert_char_spec(m, c)),
        wf(insert_newline_spec(m)),
        wf(delete_before_spec(m)),
        wf(delete_at_spec(m)),
        wf(delete_line_spec(m)),
        wf(delete_word_spec(m)),
        wf(delete_to_start_spec(m)),
{
    let l = m.lines[m.line as int];
    lemma_word_end_bounds(l, m.col as int);
}

proof fn lemma_moves_keep_wf(m: EditorModel)
    requires
        wf(m),
    ensures
        wf(scroll_spec(left_spec(m))),
        wf(scroll_spec(right_spec(m))),
        wf(scroll_spec(up_spec(m))),
        wf(scroll_spec(down_spec(m))),
        wf(scroll_spec(line_start_spec(m))),
        wf(scroll_spec(line_end_spec(m))),
        wf(scroll_spec(page_up_spec(m))),
        wf(scroll_spec(page_down_spec(m))),
        wf(line_start_spec(m)),
        wf(line_end_spec(m)),
{
}

/// Every key leaves the cursor on an existing line, at most one past its
/// last character.
pub proof fn law_keys_keep_cursor_in_text(m: EditorModel, key: EditorKey, ctrl: bool)
    requires
        wf(m),
    ensures
        wf(key_spec(m, key, ctrl).0),
{
    lemma_edits_keep_wf(m, ' ');
    lemma_moves_keep_wf(m);
    match key {
        EditorKey::Char(c) => {
            lemma_edits_keep_wf(m, c);
        },
        EditorKey::Tab => {
            let m1 = insert_char_spec(m, ' ');
            lemma_edits_keep_wf(m1, ' ');
            let m2 = insert_char_spec(m1, ' ');
            lemma_edits_keep_wf(m2, ' ');
            let m3 = insert_char_spec(m2, ' ');
            lemma_edits_keep_wf(m3, ' ');
        },
        _ => {},
    }
}

/// A text without carriage returns that does not end in a newline comes
/// back unchanged from a new editor.
pub proof fn law_content_round_trip(s: Seq<char>)
    requires
        !s.contains('\r'),
        s.len() == 0 || s.last() != '\n',
    ensures
        content_of(EditorModel { lines: initial_lines(s), line: 0, col: 0, scroll: 0 }) == s,
{
    let p = split(s, Sep::Char('\n'));
    crate::text::lemma_join_split(s, '\n');
    crate::text::lemma_split_nonempty(s, Sep::Char('\n'));
    crate::text::lemma_split_avoids(s, Sep::Char('\n'), '\r');
    let body = p.drop_last().map_values(|l: Seq<char>| strip_cr(l));
    assert forall|k: int| 0 <= k < p.len() - 1 implies strip_cr(p[k]) == p[k] by {
        if p[k].len() > 0 {
            assert(p[k].last() == p[k][p[k].len() - 1]);
        }
    }
    assert(body =~= p.drop_last());
    if s.len() == 0 {
        assert(p =~= seq![Seq::<char>::empty()]);
        assert(initial_lines(s) =~= seq![Seq::<char>::empty()]);
    } else {
        let q = split(s.drop_last(), Sep::Char('\n'));
        crate::text::lemma_split_nonempty(s.drop_last(), Sep::Char('\n'));
        assert(p.last() == q.last().push(s.last()));
        assert(p.last().len() > 0);
        assert(body.push(p.last()) =~= p);
    }
}

} // verus!
