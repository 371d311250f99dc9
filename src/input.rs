//! A single-line text input with a cursor, a placeholder shown while it is
//! empty, a label, a prefix and an optional helper line.

use vstd::prelude::*;
use crate::command::{closes_indicator, closes_on_escape, InputEvent, Key};
use crate::text::{chars_of, same_chars, string_of};

verus! {

/// The abstract state of a [`TextInput`].
pub ghost struct TextInputView {
    pub text: Seq<char>,
    pub cursor: int,
    pub placeholder: Option<Seq<char>>,
    pub padding: usize,
    pub label: Seq<char>,
    pub helper: Option<Seq<char>>,
    pub prefix: Seq<char>,
}

/// The characters of an optional text.
pub open spec fn opt_view(s: Option<&str>) -> Option<Seq<char>> {
    match s {
        Some(t) => Some(t@),
        None => None,
    }
}

impl TextInputView {
    /// The cursor lies within the text or at its end.
    pub open spec fn valid(self) -> bool {
        0 <= self.cursor <= self.text.len()
    }

    /// Whether the text is still the initial one that typing replaces: empty,
    /// or equal to the placeholder.
    pub open spec fn replaced_by_typing(self) -> bool {
        self.text.len() == 0 || self.placeholder == Some(self.text)
    }

    /// `c` typed: the text is first cleared when typing replaces it, then `c`
    /// goes in at the cursor and the cursor moves past it.
    pub open spec fn insert(self, c: char) -> TextInputView {
        let base = if self.replaced_by_typing() {
            TextInputView { text: Seq::empty(), cursor: 0, ..self }
        } else {
            self
        };
        TextInputView {
            text: base.text.insert(base.cursor, c),
            cursor: base.cursor + 1,
            ..base
        }
    }

    /// Backspace: removes the character left of the cursor, if any.
    pub open spec fn delete(self) -> TextInputView {
        if self.cursor > 0 {
            TextInputView {
                text: self.text.remove(self.cursor - 1),
                cursor: self.cursor - 1,
                ..self
            }
        } else {
            self
        }
    }

    /// One character left, stopping at the start.
    pub open spec fn left(self) -> TextInputView {
        if self.cursor > 0 {
            TextInputView { cursor: self.cursor - 1, ..self }
        } else {
            self
        }
    }

    /// One character right, stopping at the end.
    pub open spec fn right(self) -> TextInputView {
        if self.cursor < self.text.len() {
            TextInputView { cursor: self.cursor + 1, ..self }
        } else {
            self
        }
    }
}

/// A single-line text input.
pub struct TextInput {
    text: Vec<char>,
    cursor_position: usize,
    placeholder: Option<Vec<char>>,
    padding: usize,
    label: String,
    helper: Option<String>,
    prefix: String,
}

impl View for TextInput {
    type V = TextInputView;

    closed spec fn view(&self) -> TextInputView {
        TextInputView {
            text: self.text@,
            cursor: self.cursor_position as int,
            placeholder: match self.placeholder {
                Some(p) => Some(p@),
                None => None,
            },
            padding: self.padding,
            label: self.label@,
            helper: match self.helper {
                Some(h) => Some(h@),
                None => None,
            },
            prefix: self.prefix@,
        }
    }
}

impl TextInput {
    /// An input holding `initial_text` with the cursor at its end.
    pub fn new(
        placeholder: Option<&str>,
        padding: usize,
        initial_text: &str,
        label: &str,
        helper_text: Option<&str>,
        prefix: &str,
    ) -> (r: TextInput)
        ensures
            r@ == (TextInputView {
                text: initial_text@,
                cursor: initial_text@.len() as int,
                placeholder: opt_view(placeholder),
                padding,
                label: label@,
                helper: opt_view(helper_text),
                prefix: prefix@,
            }),
            r@.valid(),
    {
        let text = chars_of(initial_text);
        let cursor_position = text.len();
        TextInput {
            text,
            cursor_position,
            placeholder: match placeholder {
                Some(p) => Some(chars_of(p)),
                None => None,
            },
            padding,
            label: label.to_owned(),
            helper: match helper_text {
                Some(h) => Some(h.to_owned()),
                None => None,
            },
            prefix: prefix.to_owned(),
        }
    }

    /// Types `c` at the cursor, first clearing an empty or placeholder text.
    pub fn insert_char(&mut self, c: char)
        requires
            old(self)@.valid(),
        ensures
            final(self)@ == old(self)@.insert(c),
            final(self)@.valid(),
    {
        let replaced = self.text.len() == 0 || match &self.placeholder {
            Some(p) => same_chars(&self.text, p),
            None => false,
        };
        if replaced {
            self.text = Vec::new();
            self.cursor_position = 0;
        }
        self.text.insert(self.cursor_position, c);
        let len = self.text.len();
        assert(self.cursor_position < len);
        self.cursor_position = self.cursor_position + 1;
    }

    /// Backspace: removes the character left of the cursor, if any.
    pub fn delete_char(&mut self)
        requires
            old(self)@.valid(),
        ensures
            final(self)@ == old(self)@.delete(),
            final(self)@.valid(),
    {
        if self.cursor_position > 0 {
            self.text.remove(self.cursor_position - 1);
            self.cursor_position = self.cursor_position - 1;
        }
    }

    /// One character left, stopping at the start.
    pub fn move_cursor_left(&mut self)
        requires
            old(self)@.valid(),
        ensures
            final(self)@ == old(self)@.left(),
            final(self)@.valid(),
    {
        if self.cursor_position > 0 {
            self.cursor_position = self.cursor_position - 1;
        }
    }

    /// One character right, stopping at the end.
    pub fn move_cursor_right(&mut self)
        requires
            old(self)@.valid(),
        ensures
            final(self)@ == old(self)@.right(),
            final(self)@.valid(),
    {
        if self.cursor_position < self.text.len() {
            self.cursor_position = self.cursor_position + 1;
        }
    }

    /// One step of an editing session: returns whether the session ends (Esc
    /// or control-`c`); otherwise a character is typed, Backspace deletes, and
    /// the arrows move the cursor.
    pub fn handle_event(&mut self, ev: InputEvent) -> (done: bool)
        requires
            old(self)@.valid(),
        ensures
            final(self)@.valid(),
            done == closes_indicator(ev),
            final(self)@ == if done {
                old(self)@
            } else {
                match ev {
                    InputEvent::Key(Key::Char(c), _) => old(self)@.insert(c),
                    InputEvent::Key(Key::Backspace, _) => old(self)@.delete(),
                    InputEvent::Key(Key::Left, _) => old(self)@.left(),
                    InputEvent::Key(Key::Right, _) => old(self)@.right(),
                    _ => old(self)@,
                }
            },
    {
        if closes_on_escape(ev) {
            return true;
        }
        match ev {
            InputEvent::Key(Key::Char(c), _) => self.insert_char(c),
            InputEvent::Key(Key::Backspace, _) => self.delete_char(),
            InputEvent::Key(Key::Left, _) => self.move_cursor_left(),
            InputEvent::Key(Key::Right, _) => self.move_cursor_right(),
            _ => {},
        }
        false
    }

    /// The text typed so far.
    pub fn text(&self) -> (r: String)
        ensures
            r@ == self@.text,
    {
        string_of(&self.text)
    }

    /// The cursor's position, in characters.
    pub fn cursor_position(&self) -> (r: usize)
        ensures
            r == self@.cursor,
    {
        self.cursor_position
    }

    /// The placeholder shown while the text is empty, if any.
    pub fn placeholder(&self) -> (r: Option<String>)
        ensures
            match r {
                Some(p) => self@.placeholder == Some(p@),
                None => self@.placeholder is None,
            },
    {
        match &self.placeholder {
            Some(p) => Some(string_of(p)),
            None => None,
        }
    }

    /// The left padding.
    pub fn padding(&self) -> (r: usize)
        ensures
            r == self@.padding,
    {
        self.padding
    }

    /// The label shown above the input.
    pub fn label(&self) -> (r: &str)
        ensures
            r@ == self@.label,
    {
        self.label.as_str()
    }

    /// The helper line shown below the input, if any.
    pub fn helper(&self) -> (r: Option<&str>)
        ensures
            opt_view(r) == self@.helper,
    {
        match &self.helper {
            Some(h) => Some(h.as_str()),
            None => None,
        }
    }

    /// The prefix shown before the text.
    pub fn prefix(&self) -> (r: &str)
        ensures
            r@ == self@.prefix,
    {
        self.prefix.as_str()
    }
}

} // verus!
