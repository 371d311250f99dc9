//! The selection cursor of a list: an index into the visible items, moved
//! circularly, with a scroll window that follows it.

use vstd::prelude::*;
use crate::scroll::{adjust, follow_to, in_window};

verus! {

/// The index after `s` in a circular list of `len` items.
pub open spec fn next_index(s: int, len: int) -> int {
    if s + 1 < len { s + 1 } else { 0 }
}

/// The index before `s` in a circular list of `len` items.
pub open spec fn previous_index(s: int, len: int) -> int {
    if s > 0 { s - 1 } else { len - 1 }
}

/// The abstract state of a [`Selection`].
pub ghost struct SelectionView {
    pub selected: Option<int>,
    pub offset: int,
    pub window: int,
    pub len: int,
}

impl SelectionView {
    /// Nothing is selected exactly when the list is empty; a selection lies in
    /// the list and inside the window `[offset, offset + window)`.
    pub open spec fn valid(self) -> bool {
        &&& self.window > 0
        &&& self.len >= 0
        &&& self.offset >= 0
        &&& (self.selected is None <==> self.len == 0)
        &&& (self.selected matches Some(s) ==> 0 <= s < self.len && in_window(
            s,
            self.offset,
            self.window,
        ))
    }

    /// The state with `s` selected and the window moved to show it.
    pub open spec fn select(self, s: int) -> SelectionView {
        SelectionView {
            selected: Some(s),
            offset: follow_to(s, self.window, self.offset),
            ..self
        }
    }

    /// Circular step forward; nothing on an empty list.
    pub open spec fn next(self) -> SelectionView {
        match self.selected {
            Some(s) => self.select(next_index(s, self.len)),
            None => self,
        }
    }

    /// Circular step back; nothing on an empty list.
    pub open spec fn previous(self) -> SelectionView {
        match self.selected {
            Some(s) => self.select(previous_index(s, self.len)),
            None => self,
        }
    }

    /// The state after `k` steps forward.
    pub open spec fn next_n(self, k: nat) -> SelectionView
        decreases k,
    {
        if k == 0 {
            self
        } else {
            self.next().next_n((k - 1) as nat)
        }
    }

    /// A list of `len` items with the first selected (none when empty) and the
    /// window at the top.
    pub open spec fn fresh(len: int, window: int) -> SelectionView {
        SelectionView {
            selected: if len > 0 { Some(0) } else { None },
            offset: 0,
            window,
            len,
        }
    }
}

/// Steps forward keep the state valid; `k <= len` steps from `s` reach
/// `s + k`, counted round the end of the list.
pub proof fn lemma_next_n(v: SelectionView, k: nat)
    requires
        v.valid(),
        k <= v.len,
    ensures
        v.next_n(k).valid(),
        v.next_n(k).window == v.window,
        v.next_n(k).len == v.len,
        v.selected matches Some(s) ==> v.next_n(k).selected == Some(
            if s + k < v.len { s + k } else { s + k - v.len },
        ),
    decreases k,
{
    if k > 0 {
        lemma_next_n(v.next(), (k - 1) as nat);
    }
}

/// Going forward once per item brings the selection back to where it started.
pub proof fn lemma_next_cycles(v: SelectionView)
    requires
        v.valid(),
    ensures
        v.next_n(v.len as nat).selected == v.selected,
{
    lemma_next_n(v, v.len as nat);
}

/// A selection cursor over a list of `len` items with a window of `window`
/// items that always shows it.
pub struct Selection {
    selected: Option<usize>,
    offset: usize,
    window: usize,
    len: usize,
}

impl View for Selection {
    type V = SelectionView;

    closed spec fn view(&self) -> SelectionView {
        SelectionView {
            selected: match self.selected {
                Some(s) => Some(s as int),
                None => None,
            },
            offset: self.offset as int,
            window: self.window as int,
            len: self.len as int,
        }
    }
}

impl Selection {
    /// The first of `len` items selected, or none when there are none.
    pub fn new(len: usize, window: usize) -> (r: Selection)
        requires
            window > 0,
        ensures
            r@ == SelectionView::fresh(len as int, window as int),
            r@.valid(),
    {
        Selection { selected: if len > 0 { Some(0) } else { None }, offset: 0, window, len }
    }

    /// Starts over on a list of `len` items: the first selected, or none.
    pub fn reset(&mut self, len: usize)
        requires
            old(self)@.valid(),
        ensures
            final(self)@ == SelectionView::fresh(len as int, old(self)@.window),
            final(self)@.valid(),
    {
        self.selected = if len > 0 { Some(0) } else { None };
        self.offset = 0;
        self.len = len;
    }

    fn select(&mut self, s: usize)
        requires
            old(self)@.valid(),
            s < old(self)@.len,
        ensures
            final(self)@ == old(self)@.select(s as int),
            final(self)@.valid(),
    {
        self.selected = Some(s);
        self.offset = adjust(Some(s), self.len, self.window, self.offset);
    }

    /// Circular step forward.
    pub fn next(&mut self)
        requires
            old(self)@.valid(),
        ensures
            final(self)@ == old(self)@.next(),
            final(self)@.valid(),
    {
        if let Some(s) = self.selected {
            let n = if s + 1 < self.len { s + 1 } else { 0 };
            self.select(n);
        }
    }

    /// Circular step back.
    pub fn previous(&mut self)
        requires
            old(self)@.valid(),
        ensures
            final(self)@ == old(self)@.previous(),
            final(self)@.valid(),
    {
        if let Some(s) = self.selected {
            let p = if s > 0 { s - 1 } else { self.len - 1 };
            self.select(p);
        }
    }

    /// The selected index, if any.
    pub fn selected(&self) -> (r: Option<usize>)
        ensures
            r matches Some(s) ==> self@.selected == Some(s as int),
            r is None ==> self@.selected is None,
    {
        self.selected
    }

    /// The first index the window shows.
    pub fn offset(&self) -> (r: usize)
        ensures
            r == self@.offset,
    {
        self.offset
    }

    /// How many items the window shows.
    pub fn window(&self) -> (r: usize)
        ensures
            r == self@.window,
    {
        self.window
    }
}

} // verus!
