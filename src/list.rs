//! A titled list of items that can be filtered by a case-insensitive substring
//! of their titles, with a circular selection over the filtered view.

use vstd::prelude::*;
use crate::command::{control_c, is_control_c, InputEvent, Key};
use crate::error::ConfigError;
use crate::selection::{Selection, SelectionView};
use crate::text::{chars_of, contains, contains_chars, lower_of, lowercase_chars, string_of};

verus! {

/// One entry of an [`ItemList`].
pub struct Item {
    pub title: String,
    pub subtitle: String,
}

/// A title matches a filter when the filter's lowercase form occurs in the
/// title's lowercase form.
pub open spec fn title_matches(title: Seq<char>, filter: Seq<char>) -> bool {
    contains(lower_of(title), lower_of(filter))
}

/// The indices of the titles that match `filter`, in increasing order.
pub open spec fn matching(titles: Seq<Seq<char>>, filter: Seq<char>) -> Seq<usize>
    decreases titles.len(),
{
    if titles.len() == 0 {
        Seq::empty()
    } else {
        let rest = matching(titles.drop_last(), filter);
        if title_matches(titles.last(), filter) {
            rest.push((titles.len() - 1) as usize)
        } else {
            rest
        }
    }
}

/// The indices `0, 1, ..., n - 1`.
pub open spec fn all_indices(n: nat) -> Seq<usize> {
    Seq::new(n, |i: int| i as usize)
}

/// The titles of `items`.
pub open spec fn titles(items: Seq<Item>) -> Seq<Seq<char>> {
    items.map_values(|it: Item| it.title@)
}

/// `matching` lists exactly the matching titles, each once, in their order.
pub proof fn lemma_matching_exact(ts: Seq<Seq<char>>, filter: Seq<char>)
    requires
        ts.len() <= usize::MAX,
    ensures
        forall|j: int|
            0 <= j < matching(ts, filter).len() ==> {
                &&& matching(ts, filter)[j] < ts.len()
                &&& title_matches(ts[matching(ts, filter)[j] as int], filter)
            },
        forall|j: int, k: int|
            0 <= j < k < matching(ts, filter).len() ==> matching(ts, filter)[j] < matching(
                ts,
                filter,
            )[k],
        forall|i: int|
            0 <= i < ts.len() && title_matches(ts[i], filter) ==> exists|j: int|
                0 <= j < matching(ts, filter).len() && matching(ts, filter)[j] == i,
    decreases ts.len(),
{
    if ts.len() > 0 {
        let init = ts.drop_last();
        lemma_matching_exact(init, filter);
        let m = matching(ts, filter);
        let r = matching(init, filter);
        assert forall|i: int| 0 <= i < ts.len() && title_matches(ts[i], filter) implies exists|
            j: int,
        | 0 <= j < m.len() && m[j] == i by {
            if i < ts.len() - 1 {
                assert(init[i] == ts[i]);
                let j = choose|j: int| 0 <= j < r.len() && r[j] == i;
                assert(m[j] == i);
            } else {
                assert(m[m.len() - 1] == i);
            }
        }
    }
}

/// With every title matching, `matching` is every index.
proof fn lemma_matching_all(ts: Seq<Seq<char>>, filter: Seq<char>)
    requires
        ts.len() <= usize::MAX,
        forall|i: int| 0 <= i < ts.len() ==> title_matches(ts[i], filter),
    ensures
        matching(ts, filter) == all_indices(ts.len()),
    decreases ts.len(),
{
    if ts.len() > 0 {
        let init = ts.drop_last();
        assert forall|i: int| 0 <= i < init.len() implies title_matches(init[i], filter) by {
            assert(init[i] == ts[i]);
        }
        lemma_matching_all(init, filter);
        assert(matching(ts, filter) =~= all_indices(ts.len()));
    }
}

/// The events that leave a list without a choice: `q` and control-`c`.
pub open spec fn leaves_list(ev: InputEvent) -> bool {
    is_control_c(ev) || ev matches InputEvent::Key(Key::Char('q'), _)
}

/// The new filter text and filter-line state that an event asks for, if it
/// edits the filter: `/` opens an empty filter line, Esc closes it and empties
/// the filter, and while it is open a typed character is appended and
/// Backspace removes the last one.
pub open spec fn filter_edit(ev: InputEvent, filter: Seq<char>, showing: bool) -> Option<
    (Seq<char>, bool),
> {
    if leaves_list(ev) {
        None
    } else {
        match ev {
            InputEvent::Key(Key::Char(c), _) => if c == '/' {
                Some((Seq::empty(), true))
            } else if showing {
                Some((filter.push(c), true))
            } else {
                None
            },
            InputEvent::Key(Key::Esc, _) => Some((Seq::empty(), false)),
            InputEvent::Key(Key::Backspace, _) => if showing {
                Some((if filter.len() > 0 { filter.drop_last() } else { filter }, true))
            } else {
                None
            },
            _ => None,
        }
    }
}

/// What the session of a list does after an event.
pub enum ListAction {
    /// Go on reading events.
    Continue,
    /// Stop without a choice.
    Quit,
    /// Stop with the title of the chosen item.
    Chosen(String),
}

/// A titled list of items, a filter over their titles, and a selection over the
/// items that pass the filter.
pub struct ItemList {
    title: String,
    showing_filter: bool,
    items: Vec<Item>,
    filter: String,
    view: Vec<usize>,
    selection: Selection,
}

impl ItemList {
    /// The list's title.
    pub closed spec fn title_view(&self) -> Seq<char> {
        self.title@
    }

    /// Whether the filter line is being edited and shown.
    pub closed spec fn showing_filter_view(&self) -> bool {
        self.showing_filter
    }

    /// The items, in the order given.
    pub closed spec fn items_view(&self) -> Seq<Item> {
        self.items@
    }

    /// The current filter text.
    pub closed spec fn filter_view(&self) -> Seq<char> {
        self.filter@
    }

    /// The indices of the items that pass the filter, in order.
    pub closed spec fn view_indices(&self) -> Seq<usize> {
        self.view@
    }

    /// The selection over the filtered view.
    pub closed spec fn selection_view(&self) -> SelectionView {
        self.selection@
    }

    /// The view holds exactly the matching items, and the selection ranges over
    /// it.
    pub open spec fn wf(&self) -> bool {
        &&& self.items_view().len() <= usize::MAX
        &&& self.view_indices() == matching(titles(self.items_view()), self.filter_view())
        &&& self.selection_view().valid()
        &&& self.selection_view().len == self.view_indices().len()
    }

    /// The item at position `k` of the filtered view.
    pub open spec fn view_item(&self, k: int) -> Item {
        self.items_view()[self.view_indices()[k] as int]
    }

    /// `self` is `old` with the filter set to `filter` and the filter line
    /// shown or not: the view recomputed and its first item selected.
    pub open spec fn refiltered_from(&self, old: &ItemList, filter: Seq<char>, showing: bool) -> bool {
        &&& self.wf()
        &&& self.items_view() == old.items_view()
        &&& self.title_view() == old.title_view()
        &&& self.filter_view() == filter
        &&& self.view_indices() == matching(titles(old.items_view()), filter)
        &&& self.selection_view() == SelectionView::fresh(
            self.view_indices().len() as int,
            old.selection_view().window,
        )
        &&& self.showing_filter_view() == showing
    }

    /// `self` is `old` with the selection state `selection`.
    pub open spec fn moved_from(&self, old: &ItemList, selection: SelectionView) -> bool {
        &&& self.wf()
        &&& self.items_view() == old.items_view()
        &&& self.title_view() == old.title_view()
        &&& self.filter_view() == old.filter_view()
        &&& self.view_indices() == old.view_indices()
        &&& self.showing_filter_view() == old.showing_filter_view()
        &&& self.selection_view() == selection
    }

    /// A list of `items` under `title` with an empty filter, the first item
    /// selected and a window of `window_size` items; fails on an empty window.
    pub fn new(title: String, items: Vec<Item>, window_size: usize) -> (r: Result<
        ItemList,
        ConfigError,
    >)
        ensures
            r is Ok <==> window_size > 0,
            window_size == 0 <==> r == Err::<ItemList, ConfigError>(ConfigError::ZeroWindow),
            r matches Ok(l) ==> {
                &&& l.wf()
                &&& l.title_view() == title@
                &&& !l.showing_filter_view()
                &&& l.items_view() == items@
                &&& l.filter_view().len() == 0
                &&& l.view_indices() == all_indices(items@.len())
                &&& l.selection_view() == SelectionView::fresh(
                    items@.len() as int,
                    window_size as int,
                )
            },
    {
        if window_size == 0 {
            return Err(ConfigError::ZeroWindow);
        }
        let n = items.len();
        let mut list = ItemList {
            title,
            showing_filter: false,
            items,
            filter: String::new(),
            view: Vec::new(),
            selection: Selection::new(n, window_size),
        };
        list.update_filter();
        Ok(list)
    }

    /// Recomputes the view from the current filter and selects its first item.
    pub fn update_filter(&mut self)
        requires
            old(self).selection_view().valid(),
        ensures
            final(self).wf(),
            final(self).items_view() == old(self).items_view(),
            final(self).filter_view() == old(self).filter_view(),
            final(self).title_view() == old(self).title_view(),
            final(self).showing_filter_view() == old(self).showing_filter_view(),
            final(self).selection_view() == SelectionView::fresh(
                final(self).view_indices().len() as int,
                old(self).selection_view().window,
            ),
            old(self).filter_view().len() == 0 ==> final(self).view_indices() == all_indices(
                old(self).items_view().len(),
            ),
    {
        let ghost ts = titles(self.items@);
        let pattern = lowercase_chars(self.filter.as_str());
        let n = self.items.len();
        let mut view: Vec<usize> = Vec::new();
        let mut i: usize = 0;
        while i < n
            invariant
                n == self.items@.len(),
                ts == titles(self.items@),
                pattern@ == lower_of(self.filter@),
                i <= n,
                view@ == matching(ts.subrange(0, i as int), self.filter@),
            decreases n - i,
        {
            let folded = lowercase_chars(self.items[i].title.as_str());
            assert(ts.subrange(0, i + 1).drop_last() =~= ts.subrange(0, i as int));
            assert(ts.subrange(0, i + 1).last() == self.items@[i as int].title@);
            if contains_chars(&folded, &pattern) {
                view.push(i);
            }
            i = i + 1;
        }
        assert(ts.subrange(0, n as int) =~= ts);
        proof {
            if self.filter@.len() == 0 {
                assert forall|k: int| 0 <= k < ts.len() implies title_matches(
                    ts[k],
                    self.filter@,
                ) by {
                    assert(lower_of(ts[k]).subrange(0, 0) =~= lower_of(self.filter@));
                    assert(crate::text::occurs_at(lower_of(ts[k]), lower_of(self.filter@), 0));
                }
                lemma_matching_all(ts, self.filter@);
            }
        }
        self.selection.reset(view.len());
        self.view = view;
    }

    /// Replaces the filter with `text`, recomputes the view and selects its
    /// first item.
    pub fn set_filter(&mut self, text: &str)
        requires
            old(self).wf(),
        ensures
            final(self).wf(),
            final(self).items_view() == old(self).items_view(),
            final(self).filter_view() == text@,
            final(self).view_indices() == matching(titles(old(self).items_view()), text@),
            final(self).title_view() == old(self).title_view(),
            final(self).showing_filter_view() == old(self).showing_filter_view(),
            final(self).selection_view() == SelectionView::fresh(
                final(self).view_indices().len() as int,
                old(self).selection_view().window,
            ),
            text@.len() == 0 ==> final(self).view_indices() == all_indices(
                old(self).items_view().len(),
            ),
    {
        self.filter = text.to_owned();
        self.update_filter();
    }

    /// The item under the selection, if any.
    pub fn get_selected_item(&self) -> (r: Option<&Item>)
        requires
            self.wf(),
        ensures
            match self.selection_view().selected {
                Some(s) => r == Some(&self.view_item(s)),
                None => r is None,
            },
    {
        proof {
            lemma_matching_exact(titles(self.items@), self.filter@);
        }
        match self.selection.selected() {
            Some(s) => Some(&self.items[self.view[s]]),
            None => None,
        }
    }

    /// Selects the next item of the view, going round from the last to the first.
    pub fn next(&mut self)
        requires
            old(self).wf(),
        ensures
            final(self).wf(),
            final(self).selection_view() == old(self).selection_view().next(),
            final(self).items_view() == old(self).items_view(),
            final(self).title_view() == old(self).title_view(),
            final(self).showing_filter_view() == old(self).showing_filter_view(),
            final(self).view_indices() == old(self).view_indices(),
            final(self).filter_view() == old(self).filter_view(),
    {
        self.selection.next();
    }

    /// Selects the previous item of the view, going round from the first to the
    /// last.
    pub fn previous(&mut self)
        requires
            old(self).wf(),
        ensures
            final(self).wf(),
            final(self).selection_view() == old(self).selection_view().previous(),
            final(self).items_view() == old(self).items_view(),
            final(self).title_view() == old(self).title_view(),
            final(self).showing_filter_view() == old(self).showing_filter_view(),
            final(self).view_indices() == old(self).view_indices(),
            final(self).filter_view() == old(self).filter_view(),
    {
        self.selection.previous();
    }

    /// One step of a list session: `q` and control-`c` leave, Enter chooses the
    /// selected item, Down and Up move the selection round the view, and the
    /// other keys edit the filter as [`filter_edit`] says.
    pub fn handle_event(&mut self, ev: InputEvent) -> (r: ListAction)
        requires
            old(self).wf(),
        ensures
            leaves_list(ev) ==> (r is Quit && final(self).moved_from(
                old(self),
                old(self).selection_view(),
            )),
            (ev matches InputEvent::Key(Key::Enter, _)) ==> (final(self).moved_from(
                old(self),
                old(self).selection_view(),
            ) && match old(self).selection_view().selected {
                Some(s) => r matches ListAction::Chosen(t) && t@ == old(self).view_item(s).title@,
                None => r is Continue,
            }),
            (ev matches InputEvent::Key(Key::Down, _)) ==> (r is Continue
                && final(self).moved_from(old(self), old(self).selection_view().next())),
            (ev matches InputEvent::Key(Key::Up, _)) ==> (r is Continue
                && final(self).moved_from(old(self), old(self).selection_view().previous())),
            match filter_edit(ev, old(self).filter_view(), old(self).showing_filter_view()) {
                Some((f, shown)) => (r is Continue) && final(self).refiltered_from(
                    old(self),
                    f,
                    shown,
                ),
                None => true,
            },
            (!leaves_list(ev) && !(ev matches InputEvent::Key(Key::Enter, _)) && !(ev matches InputEvent::Key(
                Key::Down,
                _,
            )) && !(ev matches InputEvent::Key(Key::Up, _)) && filter_edit(
                ev,
                old(self).filter_view(),
                old(self).showing_filter_view(),
            ) is None) ==> (r is Continue && final(self).moved_from(
                old(self),
                old(self).selection_view(),
            )),
    {
        if control_c(ev) {
            return ListAction::Quit;
        }
        match ev {
            InputEvent::Key(Key::Char('q'), _) => ListAction::Quit,
            InputEvent::Key(Key::Char('/'), _) => {
                self.showing_filter = true;
                self.filter = String::new();
                self.update_filter();
                ListAction::Continue
            },
            InputEvent::Key(Key::Esc, _) => {
                self.showing_filter = false;
                self.filter = String::new();
                self.update_filter();
                ListAction::Continue
            },
            InputEvent::Key(Key::Enter, _) => match self.get_selected_item() {
                Some(item) => ListAction::Chosen(item.title.clone()),
                None => ListAction::Continue,
            },
            InputEvent::Key(Key::Down, _) => {
                self.next();
                ListAction::Continue
            },
            InputEvent::Key(Key::Up, _) => {
                self.previous();
                ListAction::Continue
            },
            InputEvent::Key(Key::Char(c), _) => {
                if self.showing_filter {
                    self.filter.push(c);
                    self.update_filter();
                }
                ListAction::Continue
            },
            InputEvent::Key(Key::Backspace, _) => {
                if self.showing_filter {
                    let mut cs = chars_of(self.filter.as_str());
                    cs.pop();
                    self.filter = string_of(&cs);
                    self.update_filter();
                }
                ListAction::Continue
            },
            _ => ListAction::Continue,
        }
    }

    /// The selected position in the view, if any.
    pub fn selected(&self) -> (r: Option<usize>)
        ensures
            r matches Some(s) ==> self.selection_view().selected == Some(s as int),
            r is None ==> self.selection_view().selected is None,
    {
        self.selection.selected()
    }

    /// The first view position the window shows.
    pub fn scroll_offset(&self) -> (r: usize)
        ensures
            r == self.selection_view().offset,
    {
        self.selection.offset()
    }

    /// How many items pass the filter.
    pub fn filtered_count(&self) -> (r: usize)
        ensures
            r == self.view_indices().len(),
    {
        self.view.len()
    }

    /// The item at position `k` of the filtered view.
    pub fn filtered_item(&self, k: usize) -> (r: &Item)
        requires
            self.wf(),
            k < self.view_indices().len(),
        ensures
            *r == self.view_item(k as int),
    {
        proof {
            lemma_matching_exact(titles(self.items@), self.filter@);
        }
        &self.items[self.view[k]]
    }

    /// All items, in the order given.
    pub fn items(&self) -> (r: &Vec<Item>)
        ensures
            r@ == self.items_view(),
    {
        &self.items
    }

    /// The list's title.
    pub fn title(&self) -> (r: &str)
        ensures
            r@ == self.title_view(),
    {
        self.title.as_str()
    }

    /// Whether the filter line is being edited and shown.
    pub fn showing_filter(&self) -> (r: bool)
        ensures
            r == self.showing_filter_view(),
    {
        self.showing_filter
    }

    /// Shows or hides the filter line; nothing else changes.
    pub fn set_showing_filter(&mut self, shown: bool)
        ensures
            final(self).showing_filter_view() == shown,
            final(self).title_view() == old(self).title_view(),
            final(self).items_view() == old(self).items_view(),
            final(self).filter_view() == old(self).filter_view(),
            final(self).view_indices() == old(self).view_indices(),
            final(self).selection_view() == old(self).selection_view(),
    {
        self.showing_filter = shown;
    }

    /// The current filter text.
    pub fn filter(&self) -> (r: &str)
        ensures
            r@ == self.filter_view(),
    {
        self.filter.as_str()
    }
}

} // verus!
