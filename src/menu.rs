//! A titled menu of named entries; the cursor moves circularly and each entry
//! can be ticked.

use vstd::prelude::*;
use crate::command::{control_c, is_control_c, InputEvent, Key};
use crate::error::ConfigError;
use crate::selection::{Selection, SelectionView};

verus! {

/// One entry of a [`Menu`]: its name and whether it is ticked.
pub struct MenuItem {
    pub name: String,
    pub selected: bool,
}

/// The abstract state of a menu entry.
pub ghost struct MenuItemView {
    pub name: Seq<char>,
    pub ticked: bool,
}

/// The entries as names and ticks.
pub open spec fn entries_view(items: Seq<MenuItem>) -> Seq<MenuItemView> {
    items.map_values(|m: MenuItem| MenuItemView { name: m.name@, ticked: m.selected })
}

/// The entries with the one at `selected`, if any, ticked or unticked.
pub open spec fn toggled(entries: Seq<MenuItemView>, selected: Option<int>) -> Seq<MenuItemView> {
    match selected {
        Some(s) => entries.update(s, MenuItemView { name: entries[s].name, ticked: !entries[s].ticked }),
        None => entries,
    }
}

/// The events that leave a menu without a choice: `q` and control-`c`.
pub open spec fn leaves_menu(ev: InputEvent) -> bool {
    is_control_c(ev) || ev matches InputEvent::Key(Key::Char('q'), _)
}

/// What the session of a menu does after an event.
pub enum MenuAction {
    /// Go on reading events.
    Continue,
    /// Stop without a choice.
    Quit,
    /// Stop with the name of the chosen entry.
    Chosen(String),
}

/// A menu: a title, a subtitle, entries, and a circular cursor over them with a
/// window that follows it.
pub struct Menu {
    title: String,
    subtitle: String,
    items: Vec<MenuItem>,
    selection: Selection,
}

impl Menu {
    /// The menu's title.
    pub closed spec fn title_view(&self) -> Seq<char> {
        self.title@
    }

    /// The menu's subtitle.
    pub closed spec fn subtitle_view(&self) -> Seq<char> {
        self.subtitle@
    }

    /// The entries.
    pub closed spec fn entries(&self) -> Seq<MenuItemView> {
        entries_view(self.items@)
    }

    /// The cursor over the entries.
    pub closed spec fn selection_view(&self) -> SelectionView {
        self.selection@
    }

    /// The cursor ranges over the entries.
    pub open spec fn wf(&self) -> bool {
        &&& self.selection_view().valid()
        &&& self.selection_view().len == self.entries().len()
    }

    /// A menu of unticked entries named `items`, the cursor on the first; fails
    /// on an empty window.
    pub fn new(title: String, subtitle: String, items: Vec<String>, window_size: usize) -> (r:
        Result<Menu, ConfigError>)
        ensures
            r is Ok <==> window_size > 0,
            window_size == 0 <==> r == Err::<Menu, ConfigError>(ConfigError::ZeroWindow),
            r matches Ok(m) ==> {
                &&& m.wf()
                &&& m.title_view() == title@
                &&& m.subtitle_view() == subtitle@
                &&& m.entries() == items@.map_values(
                    |s: String| MenuItemView { name: s@, ticked: false },
                )
                &&& m.selection_view() == SelectionView::fresh(
                    items@.len() as int,
                    window_size as int,
                )
            },
    {
        if window_size == 0 {
            return Err(ConfigError::ZeroWindow);
        }
        let n = items.len();
        let mut entries: Vec<MenuItem> = Vec::new();
        let mut i: usize = 0;
        while i < n
            invariant
                n == items@.len(),
                i <= n,
                entries@.len() == i,
                forall|j: int|
                    0 <= j < i ==> entries@[j].name@ == items@[j]@ && !entries@[j].selected,
            decreases n - i,
        {
            let name = items[i].clone();
            assert(name@ == items@[i as int]@);
            entries.push(MenuItem { name, selected: false });
            i = i + 1;
        }
        assert(entries_view(entries@) =~= items@.map_values(
            |s: String| MenuItemView { name: s@, ticked: false },
        ));
        Ok(Menu { title, subtitle, items: entries, selection: Selection::new(n, window_size) })
    }

    /// Moves the cursor up, from the first entry round to the last.
    pub fn up(&mut self)
        requires
            old(self).wf(),
        ensures
            final(self).wf(),
            final(self).selection_view() == old(self).selection_view().previous(),
            final(self).entries() == old(self).entries(),
    {
        self.selection.previous();
    }

    /// Moves the cursor down, from the last entry round to the first.
    pub fn down(&mut self)
        requires
            old(self).wf(),
        ensures
            final(self).wf(),
            final(self).selection_view() == old(self).selection_view().next(),
            final(self).entries() == old(self).entries(),
    {
        self.selection.next();
    }

    /// Ticks the entry under the cursor, or unticks it; nothing on an empty menu.
    pub fn toggle_selection(&mut self)
        requires
            old(self).wf(),
        ensures
            final(self).wf(),
            final(self).selection_view() == old(self).selection_view(),
            final(self).entries() == toggled(old(self).entries(), old(self).selection_view().selected),
    {
        if let Some(s) = self.selection.selected() {
            let ghost before = self.items@;
            let t = self.items[s].selected;
            self.items[s].selected = !t;
            assert(entries_view(self.items@) =~= entries_view(before).update(
                s as int,
                MenuItemView { name: before[s as int].name@, ticked: !t },
            ));
        }
    }

    /// One step of a menu session: `q` and control-`c` leave, Enter chooses the
    /// entry under the cursor, `j`/Down and `k`/Up move the cursor, and
    /// control-`t` ticks or unticks the entry under it.
    pub fn handle_event(&mut self, ev: InputEvent) -> (r: MenuAction)
        requires
            old(self).wf(),
        ensures
            final(self).wf(),
            leaves_menu(ev) ==> r is Quit,
            ev matches InputEvent::Key(Key::Enter, _) ==> match old(self).selection_view().selected {
                Some(s) => r matches MenuAction::Chosen(n) && n@ == old(self).entries()[s].name,
                None => r is Continue,
            },
            !leaves_menu(ev) && !(ev matches InputEvent::Key(Key::Enter, _)) ==> r is Continue,
            final(self).selection_view() == match ev {
                InputEvent::Key(Key::Char('j'), _) | InputEvent::Key(Key::Down, _) => old(
                    self,
                ).selection_view().next(),
                InputEvent::Key(Key::Char('k'), _) | InputEvent::Key(Key::Up, _) => old(
                    self,
                ).selection_view().previous(),
                _ => old(self).selection_view(),
            },
            final(self).entries() == match ev {
                InputEvent::Key(Key::Char('t'), m) => if m.control {
                    toggled(old(self).entries(), old(self).selection_view().selected)
                } else {
                    old(self).entries()
                },
                _ => old(self).entries(),
            },
    {
        if control_c(ev) {
            return MenuAction::Quit;
        }
        match ev {
            InputEvent::Key(Key::Char('q'), _) => MenuAction::Quit,
            InputEvent::Key(Key::Char('j'), _) | InputEvent::Key(Key::Down, _) => {
                self.down();
                MenuAction::Continue
            },
            InputEvent::Key(Key::Char('k'), _) | InputEvent::Key(Key::Up, _) => {
                self.up();
                MenuAction::Continue
            },
            InputEvent::Key(Key::Char('t'), m) => {
                if m.control {
                    self.toggle_selection();
                }
                MenuAction::Continue
            },
            InputEvent::Key(Key::Enter, _) => match self.selection.selected() {
                Some(s) => MenuAction::Chosen(self.items[s].name.clone()),
                None => MenuAction::Continue,
            },
            _ => MenuAction::Continue,
        }
    }

    /// The cursor's entry, if any.
    pub fn selected(&self) -> (r: Option<usize>)
        ensures
            r matches Some(s) ==> self.selection_view().selected == Some(s as int),
            r is None ==> self.selection_view().selected is None,
    {
        self.selection.selected()
    }

    /// The first entry the window shows.
    pub fn scroll_offset(&self) -> (r: usize)
        ensures
            r == self.selection_view().offset,
    {
        self.selection.offset()
    }

    /// The entries.
    pub fn items(&self) -> (r: &Vec<MenuItem>)
        ensures
            entries_view(r@) == self.entries(),
    {
        &self.items
    }

    /// The menu's title.
    pub fn title(&self) -> (r: &str)
        ensures
            r@ == self.title_view(),
    {
        self.title.as_str()
    }

    /// The menu's subtitle.
    pub fn subtitle(&self) -> (r: &str)
        ensures
            r@ == self.subtitle_view(),
    {
        self.subtitle.as_str()
    }
}

} // verus!
