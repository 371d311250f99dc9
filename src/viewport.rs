//! A scrollable view of long text: the text is word-wrapped to the viewport's
//! width once, and a window of `height` wrapped lines scrolls over it.

use vstd::prelude::*;
use crate::command::{InputEvent, Key};
use crate::error::ConfigError;
use crate::scroll::max_offset;

verus! {

/// The lines that `textwrap::wrap` makes of `text` at `width` columns.
pub uninterp spec fn wrapped_of(text: Seq<char>, width: usize) -> Seq<Seq<char>>;

/// The characters of each line.
pub open spec fn strings_view(lines: Seq<String>) -> Seq<Seq<char>> {
    lines.map_values(|l: String| l@)
}

/// Relies on `textwrap::wrap` with `textwrap::Options::new(width)`: greedy
/// word wrapping of each input line at `width` columns; the lines depend on
/// the text and the width alone.
#[verifier::external_body]
fn wrap_text(text: &str, width: usize) -> (r: Vec<String>)
    ensures
        strings_view(r@) == wrapped_of(text@, width),
{
    textwrap::wrap(text, textwrap::Options::new(width)).into_iter().map(|l| l.into_owned()).collect()
}

/// How far through the text a window at `offset` is, in percent: 0 when the
/// text fits, else `100 * offset / (total - height)`, at most 100.
pub open spec fn progress(offset: int, total: int, height: int) -> int {
    if total <= height {
        0
    } else {
        let p = 100 * offset / (total - height);
        if p > 100 { 100 } else { p }
    }
}

/// The abstract state of a [`Viewport`].
pub ghost struct ViewportView {
    pub header: Seq<char>,
    pub content: Seq<char>,
    pub lines: Seq<Seq<char>>,
    pub offset: int,
    pub height: int,
    pub width: int,
    pub padding: int,
}

impl ViewportView {
    /// The width the text is wrapped to: the viewport's width less the padding
    /// on both sides.
    pub open spec fn wrap_width(self) -> int {
        self.width - 2 * self.padding
    }

    /// The largest offset: `max(0, lines - height)`.
    pub open spec fn max_offset(self) -> int {
        max_offset(self.lines.len() as int, self.height)
    }

    /// A positive height and wrap width; the lines are the wrapped content; the
    /// offset lies in `[0, max_offset]`.
    pub open spec fn valid(self) -> bool {
        &&& self.height > 0
        &&& 0 <= self.padding
        &&& self.wrap_width() > 0
        &&& self.width <= usize::MAX
        &&& self.lines == wrapped_of(self.content, self.wrap_width() as usize)
        &&& 0 <= self.offset <= self.max_offset()
    }

    /// The state with the window at `offset`.
    pub open spec fn at(self, offset: int) -> ViewportView {
        ViewportView { offset, ..self }
    }

    /// One line down, stopping at the last full window.
    pub open spec fn scroll_down(self) -> ViewportView {
        if self.offset < self.max_offset() {
            self.at(self.offset + 1)
        } else {
            self
        }
    }

    /// One line up, stopping at the top.
    pub open spec fn scroll_up(self) -> ViewportView {
        if self.offset > 0 {
            self.at(self.offset - 1)
        } else {
            self
        }
    }

    /// One window down, stopping at the last full window.
    pub open spec fn page_down(self) -> ViewportView {
        if self.offset + self.height <= self.max_offset() {
            self.at(self.offset + self.height)
        } else {
            self.at(self.max_offset())
        }
    }

    /// One window up, stopping at the top.
    pub open spec fn page_up(self) -> ViewportView {
        if self.offset > self.height {
            self.at(self.offset - self.height)
        } else {
            self.at(0)
        }
    }
}

/// The events that close a viewport: Esc, `q`, and control-`c` with no other
/// modifier.
pub open spec fn closes_viewport(ev: InputEvent) -> bool {
    match ev {
        InputEvent::Key(Key::Esc, _) => true,
        InputEvent::Key(Key::Char(c), m) => c == 'q' || (c == 'c' && m.only_control()),
        _ => false,
    }
}

/// The scroll an event asks for: the arrows, `k`/`j` and the wheel by a line,
/// the page keys by a window.
pub open spec fn scrolled_by(v: ViewportView, ev: InputEvent) -> ViewportView {
    match ev {
        InputEvent::Key(Key::Up, _) | InputEvent::Key(Key::Char('k'), _) | InputEvent::ScrollUp => v.scroll_up(),
        InputEvent::Key(Key::Down, _) | InputEvent::Key(Key::Char('j'), _) | InputEvent::ScrollDown => v.scroll_down(),
        InputEvent::Key(Key::PageUp, _) => v.page_up(),
        InputEvent::Key(Key::PageDown, _) => v.page_down(),
        _ => v,
    }
}

/// A header, a text wrapped to the viewport's width, and a window of `height`
/// wrapped lines.
pub struct Viewport {
    header: String,
    content: String,
    padding: usize,
    scroll_offset: usize,
    height: usize,
    width: usize,
    wrapped: Vec<String>,
}

impl View for Viewport {
    type V = ViewportView;

    closed spec fn view(&self) -> ViewportView {
        ViewportView {
            header: self.header@,
            content: self.content@,
            lines: strings_view(self.wrapped@),
            offset: self.scroll_offset as int,
            height: self.height as int,
            width: self.width as int,
            padding: self.padding as int,
        }
    }
}

impl Viewport {
    /// A viewport at the top of `content`, wrapped to `width - 2 * padding`
    /// columns. Fails on a zero height, then on a width of at most twice the
    /// padding.
    pub fn new(header: String, content: String, height: usize, width: usize, padding: usize) -> (r:
        Result<Viewport, ConfigError>)
        ensures
            r is Ok <==> height > 0 && width > 2 * padding,
            r == Err::<Viewport, ConfigError>(ConfigError::ZeroWindow) <==> height == 0,
            r == Err::<Viewport, ConfigError>(ConfigError::WrapWidthTooSmall) <==> height > 0
                && width <= 2 * padding,
            r matches Ok(v) ==> {
                &&& v@.valid()
                &&& v@.header == header@
                &&& v@.content == content@
                &&& v@.offset == 0
                &&& v@.height == height
                &&& v@.width == width
                &&& v@.padding == padding
            },
    {
        if height == 0 {
            return Err(ConfigError::ZeroWindow);
        }
        if width == 0 || padding > (width - 1) / 2 {
            return Err(ConfigError::WrapWidthTooSmall);
        }
        let wrapped = wrap_text(content.as_str(), width - 2 * padding);
        Ok(Viewport { header, content, padding, scroll_offset: 0, height, width, wrapped })
    }

    /// Replaces the text, wraps it again and keeps the offset where the new
    /// text allows.
    pub fn set_content(&mut self, content: String)
        requires
            old(self)@.valid(),
        ensures
            final(self)@.valid(),
            final(self)@.content == content@,
            final(self)@.lines == wrapped_of(content@, old(self)@.wrap_width() as usize),
            final(self)@.offset == if old(self)@.offset <= final(self)@.max_offset() {
                old(self)@.offset
            } else {
                final(self)@.max_offset()
            },
            final(self)@.header == old(self)@.header,
            final(self)@.height == old(self)@.height,
            final(self)@.width == old(self)@.width,
            final(self)@.padding == old(self)@.padding,
    {
        let wrapped = wrap_text(content.as_str(), self.width - 2 * self.padding);
        self.content = content;
        self.wrapped = wrapped;
        let m = self.max_offset();
        if self.scroll_offset > m {
            self.scroll_offset = m;
        }
    }

    /// Changes the width, wraps the text again and keeps the offset where the
    /// new lines allow. Fails, changing nothing, on a width of at most twice
    /// the padding.
    pub fn set_width(&mut self, width: usize) -> (r: Result<(), ConfigError>)
        requires
            old(self)@.valid(),
        ensures
            final(self)@.valid(),
            r is Err <==> width <= 2 * old(self)@.padding,
            r is Err ==> r == Err::<(), ConfigError>(ConfigError::WrapWidthTooSmall)
                && final(self)@ == old(self)@,
            r is Ok ==> {
                &&& final(self)@.width == width
                &&& final(self)@.lines == wrapped_of(
                    old(self)@.content,
                    (width - 2 * old(self)@.padding) as usize,
                )
                &&& final(self)@.offset == if old(self)@.offset <= final(self)@.max_offset() {
                    old(self)@.offset
                } else {
                    final(self)@.max_offset()
                }
                &&& final(self)@.header == old(self)@.header
                &&& final(self)@.content == old(self)@.content
                &&& final(self)@.height == old(self)@.height
                &&& final(self)@.padding == old(self)@.padding
            },
    {
        if width == 0 || self.padding > (width - 1) / 2 {
            return Err(ConfigError::WrapWidthTooSmall);
        }
        self.wrapped = wrap_text(self.content.as_str(), width - 2 * self.padding);
        self.width = width;
        let m = self.max_offset();
        if self.scroll_offset > m {
            self.scroll_offset = m;
        }
        Ok(())
    }

    /// The largest offset: `max(0, lines - height)`.
    pub fn max_offset(&self) -> (r: usize)
        ensures
            r == max_offset(self@.lines.len() as int, self@.height),
    {
        let total = self.wrapped.len();
        if total > self.height {
            total - self.height
        } else {
            0
        }
    }

    /// One line down, stopping at the last full window.
    pub fn scroll_down(&mut self)
        requires
            old(self)@.valid(),
        ensures
            final(self)@ == old(self)@.scroll_down(),
            final(self)@.valid(),
    {
        if self.scroll_offset < self.max_offset() {
            self.scroll_offset = self.scroll_offset + 1;
        }
    }

    /// One line up, stopping at the top.
    pub fn scroll_up(&mut self)
        requires
            old(self)@.valid(),
        ensures
            final(self)@ == old(self)@.scroll_up(),
            final(self)@.valid(),
    {
        if self.scroll_offset > 0 {
            self.scroll_offset = self.scroll_offset - 1;
        }
    }

    /// One window down, stopping at the last full window.
    pub fn page_down(&mut self)
        requires
            old(self)@.valid(),
        ensures
            final(self)@ == old(self)@.page_down(),
            final(self)@.valid(),
    {
        let m = self.max_offset();
        if self.scroll_offset < m {
            if self.height <= m - self.scroll_offset {
                self.scroll_offset = self.scroll_offset + self.height;
            } else {
                self.scroll_offset = m;
            }
        }
    }

    /// One window up, stopping at the top.
    pub fn page_up(&mut self)
        requires
            old(self)@.valid(),
        ensures
            final(self)@ == old(self)@.page_up(),
            final(self)@.valid(),
    {
        if self.scroll_offset > self.height {
            self.scroll_offset = self.scroll_offset - self.height;
        } else {
            self.scroll_offset = 0;
        }
    }

    /// One step of a reading session: returns whether the session ends;
    /// otherwise the event scrolls as it asks.
    pub fn handle_event(&mut self, ev: InputEvent) -> (done: bool)
        requires
            old(self)@.valid(),
        ensures
            final(self)@.valid(),
            done == closes_viewport(ev),
            final(self)@ == scrolled_by(old(self)@, ev),
    {
        match ev {
            InputEvent::Key(Key::Up, _) | InputEvent::Key(Key::Char('k'), _) | InputEvent::ScrollUp => {
                self.scroll_up();
                false
            },
            InputEvent::Key(Key::Down, _) | InputEvent::Key(Key::Char('j'), _)
            | InputEvent::ScrollDown => {
                self.scroll_down();
                false
            },
            InputEvent::Key(Key::PageUp, _) => {
                self.page_up();
                false
            },
            InputEvent::Key(Key::PageDown, _) => {
                self.page_down();
                false
            },
            InputEvent::Key(Key::Esc, _) => true,
            InputEvent::Key(Key::Char(c), m) => c == 'q' || (c == 'c' && m.control && !m.other),
            _ => false,
        }
    }

    /// How far through the text the window is, in percent.
    pub fn progress_percent(&self) -> (r: usize)
        ensures
            r == progress(self@.offset, self@.lines.len() as int, self@.height),
            r <= 100,
    {
        let total = self.wrapped.len();
        if total <= self.height {
            0
        } else {
            let span = (total - self.height) as u128;
            let p = (self.scroll_offset as u128) * 100 / span;
            if p > 100 {
                100
            } else {
                p as usize
            }
        }
    }

    /// The first wrapped line the window shows.
    pub fn scroll_offset(&self) -> (r: usize)
        ensures
            r == self@.offset,
    {
        self.scroll_offset
    }

    /// How many wrapped lines the window shows.
    pub fn height(&self) -> (r: usize)
        ensures
            r == self@.height,
    {
        self.height
    }

    /// The viewport's width.
    pub fn width(&self) -> (r: usize)
        ensures
            r == self@.width,
    {
        self.width
    }

    /// The padding on each side of the text.
    pub fn padding(&self) -> (r: usize)
        ensures
            r == self@.padding,
    {
        self.padding
    }

    /// The header.
    pub fn header(&self) -> (r: &str)
        ensures
            r@ == self@.header,
    {
        self.header.as_str()
    }

    /// The unwrapped text.
    pub fn content(&self) -> (r: &str)
        ensures
            r@ == self@.content,
    {
        self.content.as_str()
    }

    /// The wrapped lines.
    pub fn wrapped_lines(&self) -> (r: &Vec<String>)
        ensures
            strings_view(r@) == self@.lines,
    {
        &self.wrapped
    }
}

} // verus!
