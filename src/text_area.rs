//! A multi-line text buffer with one cursor and a scroll window that follows it.

use vstd::prelude::*;
use crate::command::{control_c, is_control_c, InputEvent, Key};
use crate::error::ConfigError;
use crate::scroll::{adjust, follow_to, in_window};
use crate::text::{append_chars, string_of};

verus! {

/// The abstract state of a [`TextArea`]: its lines, cursor and scroll window.
pub ghost struct TextAreaView {
    pub lines: Seq<Seq<char>>,
    pub line: int,
    pub column: int,
    pub offset: int,
    pub height: int,
    pub label: Seq<char>,
    pub helper: Option<Seq<char>>,
}

impl TextAreaView {
    /// At least one line; the cursor on a line and at most at its end; the
    /// cursor's line inside the window `[offset, offset + height)`.
    pub open spec fn valid(self) -> bool {
        &&& self.lines.len() >= 1
        &&& 0 <= self.line < self.lines.len()
        &&& 0 <= self.column <= self.lines[self.line].len()
        &&& self.height > 0
        &&& in_window(self.line, self.offset, self.height)
    }

    /// The cursor moved back onto the text: its line to the last line at most,
    /// its column to that line's length at most.
    pub open spec fn clamp_cursor(self) -> TextAreaView {
        let l = if self.line < self.lines.len() {
            self.line
        } else {
            self.lines.len() - 1
        };
        TextAreaView {
            line: l,
            column: if self.column <= self.lines[l].len() {
                self.column
            } else {
                self.lines[l].len() as int
            },
            ..self
        }
    }

    /// The line under the cursor.
    pub open spec fn current(self) -> Seq<char> {
        self.lines[self.line]
    }

    /// The same state with the window moved to show the cursor's line.
    pub open spec fn follow(self) -> TextAreaView {
        TextAreaView { offset: follow_to(self.line, self.height, self.offset), ..self }
    }

    /// The text after the cursor moves to a new line below; the cursor goes to
    /// the start of that line.
    pub open spec fn split(self) -> TextAreaView {
        TextAreaView {
            lines: self.lines.update(self.line, self.current().subrange(0, self.column)).insert(
                self.line + 1,
                self.current().subrange(self.column, self.current().len() as int),
            ),
            line: self.line + 1,
            column: 0,
            ..self
        }.follow()
    }

    /// `c` typed at the cursor: a new line for `'\n'`, else the character is
    /// inserted and the cursor moves past it.
    pub open spec fn insert(self, c: char) -> TextAreaView {
        if c == '\n' {
            self.split()
        } else {
            TextAreaView {
                lines: self.lines.update(self.line, self.current().insert(self.column, c)),
                column: self.column + 1,
                ..self
            }
        }
    }

    /// Backspace: removes the character left of the cursor, or at the start of a
    /// line joins it onto the previous one; nothing at the start of the text.
    pub open spec fn delete(self) -> TextAreaView {
        if self.column > 0 {
            TextAreaView {
                lines: self.lines.update(self.line, self.current().remove(self.column - 1)),
                column: self.column - 1,
                ..self
            }
        } else if self.line > 0 {
            TextAreaView {
                lines: self.lines.update(
                    self.line - 1,
                    self.lines[self.line - 1] + self.current(),
                ).remove(self.line),
                line: self.line - 1,
                column: self.lines[self.line - 1].len() as int,
                ..self
            }.follow()
        } else {
            self
        }
    }

    /// One character left, wrapping to the end of the previous line.
    pub open spec fn left(self) -> TextAreaView {
        if self.column > 0 {
            TextAreaView { column: self.column - 1, ..self }
        } else if self.line > 0 {
            TextAreaView {
                line: self.line - 1,
                column: self.lines[self.line - 1].len() as int,
                ..self
            }.follow()
        } else {
            self
        }
    }

    /// One character right, wrapping to the start of the next line.
    pub open spec fn right(self) -> TextAreaView {
        if self.column < self.current().len() {
            TextAreaView { column: self.column + 1, ..self }
        } else if self.line + 1 < self.lines.len() {
            TextAreaView { line: self.line + 1, column: 0, ..self }.follow()
        } else {
            self
        }
    }

    /// The cursor on line `l`, its column clamped to that line's length.
    pub open spec fn to_line(self, l: int) -> TextAreaView {
        TextAreaView {
            line: l,
            column: if self.column <= self.lines[l].len() {
                self.column
            } else {
                self.lines[l].len() as int
            },
            ..self
        }.follow()
    }

    /// One line up; nothing on the first line.
    pub open spec fn up(self) -> TextAreaView {
        if self.line > 0 {
            self.to_line(self.line - 1)
        } else {
            self
        }
    }

    /// One line down; nothing on the last line.
    pub open spec fn down(self) -> TextAreaView {
        if self.line + 1 < self.lines.len() {
            self.to_line(self.line + 1)
        } else {
            self
        }
    }
}

/// One editing command on a text buffer.
pub ghost enum EditOp {
    Insert(char),
    Delete,
    Left,
    Right,
    Up,
    Down,
}

impl TextAreaView {
    /// The state after one command.
    pub open spec fn apply(self, op: EditOp) -> TextAreaView {
        match op {
            EditOp::Insert(c) => self.insert(c),
            EditOp::Delete => self.delete(),
            EditOp::Left => self.left(),
            EditOp::Right => self.right(),
            EditOp::Up => self.up(),
            EditOp::Down => self.down(),
        }
    }

    /// The state after the commands `ops`, in order.
    pub open spec fn apply_all(self, ops: Seq<EditOp>) -> TextAreaView
        decreases ops.len(),
    {
        if ops.len() == 0 {
            self
        } else {
            self.apply(ops[0]).apply_all(ops.drop_first())
        }
    }
}

/// Each editing command keeps the state valid.
pub proof fn lemma_edit_keeps_valid(v: TextAreaView, op: EditOp)
    requires
        v.valid(),
    ensures
        v.apply(op).valid(),
{
    match op {
        EditOp::Insert(c) => {
            if c == '\n' {
                let w = v.split();
                assert(w.lines[w.line].len() >= 0);
            }
        },
        _ => {},
    }
}

/// After any sequence of insertions, deletions and moves the cursor stays on a
/// line of the text, at most at that line's end, and inside the window.
pub proof fn lemma_edits_keep_cursor_valid(v: TextAreaView, ops: Seq<EditOp>)
    requires
        v.valid(),
    ensures
        v.apply_all(ops).valid(),
    decreases ops.len(),
{
    if ops.len() > 0 {
        lemma_edit_keeps_valid(v, ops[0]);
        lemma_edits_keep_cursor_valid(v.apply(ops[0]), ops.drop_first());
    }
}

/// Splitting the cursor's line and then deleting at the start of the new line
/// gives back the original lines and cursor.
pub proof fn lemma_split_then_delete(v: TextAreaView)
    requires
        v.valid(),
    ensures
        v.split().delete().lines == v.lines,
        v.split().delete().line == v.line,
        v.split().delete().column == v.column,
{
    let cur = v.current();
    assert(cur.subrange(0, v.column) + cur.subrange(v.column, cur.len() as int) =~= cur);
    assert(v.split().delete().lines =~= v.lines);
}

/// The edit an input event stands for in a text area: a character typed
/// (control-`c` aside), Enter as a line break, Backspace, and the arrows.
pub open spec fn edit_of(ev: InputEvent) -> Option<EditOp> {
    match ev {
        InputEvent::Key(Key::Char(c), m) => if c == 'c' && m.control {
            None
        } else {
            Some(EditOp::Insert(c))
        },
        InputEvent::Key(Key::Enter, _) => Some(EditOp::Insert('\n')),
        InputEvent::Key(Key::Backspace, _) => Some(EditOp::Delete),
        InputEvent::Key(Key::Left, _) => Some(EditOp::Left),
        InputEvent::Key(Key::Right, _) => Some(EditOp::Right),
        InputEvent::Key(Key::Up, _) => Some(EditOp::Up),
        InputEvent::Key(Key::Down, _) => Some(EditOp::Down),
        _ => None,
    }
}

/// The events that abandon the text: Esc and control-`c`.
pub open spec fn cancels(ev: InputEvent) -> bool {
    is_control_c(ev) || ev matches InputEvent::Key(Key::Esc, _)
}

/// What the session of a text area does after an event.
pub enum TextAreaAction {
    /// Go on reading events.
    Continue,
    /// Stop without a result.
    Cancel,
    /// Stop with this text.
    Submit(String),
}

/// The characters of each line.
pub open spec fn lines_view(lines: Seq<Vec<char>>) -> Seq<Seq<char>> {
    lines.map_values(|l: Vec<char>| l@)
}

/// The lines joined with `'\n'` between neighbours.
pub open spec fn joined(lines: Seq<Seq<char>>) -> Seq<char>
    decreases lines.len(),
{
    if lines.len() == 0 {
        Seq::empty()
    } else if lines.len() == 1 {
        lines[0]
    } else {
        joined(lines.drop_last()) + seq!['\n'] + lines.last()
    }
}

/// An editable multi-line text with a cursor and a window of `visible_lines`
/// lines that always shows the cursor's line.
pub struct TextArea {
    lines: Vec<Vec<char>>,
    cursor_x: usize,
    cursor_y: usize,
    scroll_offset: usize,
    label: String,
    helper: Option<String>,
    visible_lines: usize,
}

impl View for TextArea {
    type V = TextAreaView;

    closed spec fn view(&self) -> TextAreaView {
        TextAreaView {
            lines: lines_view(self.lines@),
            line: self.cursor_y as int,
            column: self.cursor_x as int,
            offset: self.scroll_offset as int,
            height: self.visible_lines as int,
            label: self.label@,
            helper: match self.helper {
                Some(h) => Some(h@),
                None => None,
            },
        }
    }
}

impl TextArea {
    /// A buffer of one empty line with the cursor at its start; fails when the
    /// window would show no line.
    pub fn new(label: &str, helper_text: Option<&str>, visible_lines: usize) -> (r: Result<
        TextArea,
        ConfigError,
    >)
        ensures
            r is Ok <==> visible_lines > 0,
            visible_lines == 0 <==> r == Err::<TextArea, ConfigError>(ConfigError::ZeroWindow),
            r matches Ok(t) ==> {
                &&& t@.valid()
                &&& t@.lines == seq![Seq::<char>::empty()]
                &&& t@.line == 0 && t@.column == 0 && t@.offset == 0
                &&& t@.height == visible_lines
                &&& t@.label == label@
                &&& t@.helper == match helper_text {
                    Some(h) => Some(h@),
                    None => None::<Seq<char>>,
                }
            },
    {
        if visible_lines == 0 {
            return Err(ConfigError::ZeroWindow);
        }
        let helper = match helper_text {
            Some(h) => Some(h.to_owned()),
            None => None,
        };
        let mut lines: Vec<Vec<char>> = Vec::new();
        lines.push(Vec::new());
        let t = TextArea {
            lines,
            cursor_x: 0,
            cursor_y: 0,
            scroll_offset: 0,
            label: label.to_owned(),
            helper,
            visible_lines,
        };
        assert(t@.lines =~= seq![Seq::<char>::empty()]);
        Ok(t)
    }

    /// Moves the window so that it shows the cursor's line.
    pub fn adjust_scroll(&mut self)
        requires
            old(self)@.height > 0,
        ensures
            final(self)@ == old(self)@.follow(),
    {
        self.scroll_offset = adjust(
            Some(self.cursor_y),
            self.lines.len(),
            self.visible_lines,
            self.scroll_offset,
        );
    }

    /// Moves the cursor back onto the text where it has left it.
    pub fn ensure_cursor_within_bounds(&mut self)
        requires
            old(self)@.lines.len() >= 1,
        ensures
            final(self)@ == old(self)@.clamp_cursor(),
            old(self)@.valid() ==> final(self)@ == old(self)@,
    {
        let n = self.lines.len();
        if self.cursor_y >= n {
            self.cursor_y = n - 1;
        }
        let len = self.lines[self.cursor_y].len();
        if self.cursor_x > len {
            self.cursor_x = len;
        }
    }

    /// Splits the cursor's line at the cursor; the text after it goes to a new
    /// line below, where the cursor moves.
    pub fn insert_new_line(&mut self)
        requires
            old(self)@.valid(),
        ensures
            final(self)@ == old(self)@.split(),
            final(self)@.valid(),
    {
        let ghost v0 = self@;
        let n = self.lines.len();
        let y = self.cursor_y;
        let x = self.cursor_x;
        assert(y < n);
        let tail = self.lines[y].split_off(x);
        self.lines.insert(y + 1, tail);
        self.cursor_y = y + 1;
        self.cursor_x = 0;
        assert(lines_view(self.lines@) =~= v0.lines.update(
            y as int,
            v0.current().subrange(0, x as int),
        ).insert(y + 1, v0.current().subrange(x as int, v0.current().len() as int)));
        self.adjust_scroll();
    }

    /// Types `c` at the cursor; `'\n'` splits the line.
    pub fn insert_char(&mut self, c: char)
        requires
            old(self)@.valid(),
        ensures
            final(self)@ == old(self)@.insert(c),
            final(self)@.valid(),
    {
        if c == '\n' {
            self.insert_new_line();
        } else {
            let ghost v0 = self@;
            let y = self.cursor_y;
            let x = self.cursor_x;
            self.lines[y].insert(x, c);
            let len = self.lines[y].len();
            assert(x < len);
            self.cursor_x = x + 1;
            assert(lines_view(self.lines@) =~= v0.lines.update(
                y as int,
                v0.current().insert(x as int, c),
            ));
        }
    }

    /// Backspace: removes the character left of the cursor, or at the start of
    /// a line joins that line onto the previous one. Nothing at the very start.
    pub fn delete_char(&mut self)
        requires
            old(self)@.valid(),
        ensures
            final(self)@ == old(self)@.delete(),
            final(self)@.valid(),
    {
        let ghost v0 = self@;
        let y = self.cursor_y;
        let x = self.cursor_x;
        if x > 0 {
            self.lines[y].remove(x - 1);
            self.cursor_x = x - 1;
            assert(lines_view(self.lines@) =~= v0.lines.update(
                y as int,
                v0.current().remove(x - 1),
            ));
        } else if y > 0 {
            let mut cur = self.lines.remove(y);
            let prev_len = self.lines[y - 1].len();
            self.lines[y - 1].append(&mut cur);
            self.cursor_y = y - 1;
            self.cursor_x = prev_len;
            assert(lines_view(self.lines@) =~= v0.lines.update(
                y - 1,
                v0.lines[y - 1] + v0.current(),
            ).remove(y as int));
            self.adjust_scroll();
        }
    }

    /// One character left, wrapping to the end of the previous line.
    pub fn move_cursor_left(&mut self)
        requires
            old(self)@.valid(),
        ensures
            final(self)@ == old(self)@.left(),
            final(self)@.valid(),
    {
        if self.cursor_x > 0 {
            self.cursor_x = self.cursor_x - 1;
        } else if self.cursor_y > 0 {
            self.cursor_y = self.cursor_y - 1;
            self.cursor_x = self.lines[self.cursor_y].len();
            self.adjust_scroll();
        }
    }

    /// One character right, wrapping to the start of the next line.
    pub fn move_cursor_right(&mut self)
        requires
            old(self)@.valid(),
        ensures
            final(self)@ == old(self)@.right(),
            final(self)@.valid(),
    {
        let n = self.lines.len();
        if self.cursor_x < self.lines[self.cursor_y].len() {
            self.cursor_x = self.cursor_x + 1;
        } else if self.cursor_y + 1 < n {
            self.cursor_y = self.cursor_y + 1;
            self.cursor_x = 0;
            self.adjust_scroll();
        }
    }

    /// The cursor onto line `l`, its column clamped to the line's length.
    fn go_to_line(&mut self, l: usize)
        requires
            old(self)@.valid(),
            l < old(self)@.lines.len(),
        ensures
            final(self)@ == old(self)@.to_line(l as int),
            final(self)@.valid(),
    {
        let len = self.lines[l].len();
        self.cursor_y = l;
        if self.cursor_x > len {
            self.cursor_x = len;
        }
        self.adjust_scroll();
    }

    /// One line down, keeping the column where the line allows; nothing on the
    /// last line.
    pub fn move_cursor_down(&mut self)
        requires
            old(self)@.valid(),
        ensures
            final(self)@ == old(self)@.down(),
            final(self)@.valid(),
    {
        let n = self.lines.len();
        if self.cursor_y + 1 < n {
            self.go_to_line(self.cursor_y + 1);
        }
    }

    /// One line up, keeping the column where the line allows; nothing on the
    /// first line.
    pub fn move_cursor_up(&mut self)
        requires
            old(self)@.valid(),
        ensures
            final(self)@ == old(self)@.up(),
            final(self)@.valid(),
    {
        if self.cursor_y > 0 {
            self.go_to_line(self.cursor_y - 1);
        }
    }

    /// One step of an editing session: Esc and control-`c` cancel, Tab
    /// submits the whole text, and every other event is applied as the edit it
    /// stands for, if any.
    pub fn handle_event(&mut self, ev: InputEvent) -> (r: TextAreaAction)
        requires
            old(self)@.valid(),
        ensures
            final(self)@.valid(),
            cancels(ev) ==> r is Cancel && final(self)@ == old(self)@,
            ev matches InputEvent::Key(Key::Tab, _) ==> (r matches TextAreaAction::Submit(s)
                && s@ == joined(old(self)@.lines)) && final(self)@ == old(self)@,
            !cancels(ev) && !(ev matches InputEvent::Key(Key::Tab, _)) ==> r is Continue
                && final(self)@ == match edit_of(ev) {
                Some(op) => old(self)@.apply(op),
                None => old(self)@,
            },
    {
        if control_c(ev) {
            return TextAreaAction::Cancel;
        }
        match ev {
            InputEvent::Key(Key::Esc, _) => TextAreaAction::Cancel,
            InputEvent::Key(Key::Tab, _) => TextAreaAction::Submit(self.text()),
            InputEvent::Key(key, _) => {
                match key {
                    Key::Char(c) => self.insert_char(c),
                    Key::Enter => self.insert_new_line(),
                    Key::Backspace => self.delete_char(),
                    Key::Left => self.move_cursor_left(),
                    Key::Right => self.move_cursor_right(),
                    Key::Up => self.move_cursor_up(),
                    Key::Down => self.move_cursor_down(),
                    _ => {},
                }
                TextAreaAction::Continue
            },
            _ => TextAreaAction::Continue,
        }
    }

    /// The cursor's column.
    pub fn cursor_x(&self) -> (r: usize)
        ensures
            r == self@.column,
    {
        self.cursor_x
    }

    /// The cursor's line.
    pub fn cursor_y(&self) -> (r: usize)
        ensures
            r == self@.line,
    {
        self.cursor_y
    }

    /// The first visible line.
    pub fn scroll_offset(&self) -> (r: usize)
        ensures
            r == self@.offset,
    {
        self.scroll_offset
    }

    /// How many lines the window shows.
    pub fn visible_lines(&self) -> (r: usize)
        ensures
            r == self@.height,
    {
        self.visible_lines
    }

    /// How many lines the text has.
    pub fn line_count(&self) -> (r: usize)
        ensures
            r == self@.lines.len(),
    {
        self.lines.len()
    }

    /// Line `i` of the text.
    pub fn line(&self, i: usize) -> (r: String)
        requires
            i < self@.lines.len(),
        ensures
            r@ == self@.lines[i as int],
    {
        string_of(&self.lines[i])
    }

    /// The label shown above the text.
    pub fn label(&self) -> (r: &str)
        ensures
            r@ == self@.label,
    {
        self.label.as_str()
    }

    /// The helper line shown below the text, if any.
    pub fn helper(&self) -> (r: Option<&str>)
        ensures
            match r {
                Some(h) => self@.helper == Some(h@),
                None => self@.helper == None::<Seq<char>>,
            },
    {
        match &self.helper {
            Some(h) => Some(h.as_str()),
            None => None,
        }
    }

    /// The whole text, its lines joined with `'\n'`.
    pub fn text(&self) -> (r: String)
        ensures
            r@ == joined(self@.lines),
    {
        let ghost lv = lines_view(self.lines@);
        let n = self.lines.len();
        let mut out: Vec<char> = Vec::new();
        let mut i: usize = 0;
        while i < n
            invariant
                n == self.lines@.len(),
                lv == lines_view(self.lines@),
                i <= n,
                out@ == joined(lv.subrange(0, i as int)),
            decreases n - i,
        {
            assert(lv.subrange(0, i + 1).drop_last() =~= lv.subrange(0, i as int));
            if i > 0 {
                out.push('\n');
            }
            append_chars(&mut out, &self.lines[i]);
            i = i + 1;
        }
        assert(lv.subrange(0, n as int) =~= lv);
        string_of(&out)
    }
}

} // verus!
