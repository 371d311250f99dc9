//! A table of text cells with a selected row that moves without wrapping and a
//! window of rows that follows it.

use vstd::prelude::*;
use crate::command::{closes_indicator, closes_on_escape, InputEvent, Key};
use crate::error::ConfigError;
use crate::scroll::{adjust, follow_to, in_window};
use vstd::string::*;

verus! {

/// The characters of each cell of a row.
pub open spec fn row_view(row: Vec<String>) -> Seq<Seq<char>> {
    row@.map_values(|c: String| c@)
}

/// The characters of each cell of each row.
pub open spec fn rows_view(rows: Seq<Vec<String>>) -> Seq<Seq<Seq<char>>> {
    rows.map_values(|r: Vec<String>| row_view(r))
}

/// The characters of each header.
pub open spec fn headers_view(headers: Seq<String>) -> Seq<Seq<char>> {
    headers.map_values(|h: String| h@)
}

/// Every row has at least `n` cells.
pub open spec fn rows_reach(rows: Seq<Seq<Seq<char>>>, n: int) -> bool {
    forall|r: int| 0 <= r < rows.len() ==> rows[r].len() >= n
}

/// The longest text in column `i`: the header and the cells of every row.
pub open spec fn column_max(header: Seq<char>, rows: Seq<Seq<Seq<char>>>, i: int) -> int
    decreases rows.len(),
{
    if rows.len() == 0 {
        header.len() as int
    } else {
        let m = column_max(header, rows.drop_last(), i);
        let l = rows.last()[i].len() as int;
        if l > m { l } else { m }
    }
}

/// The width of column `i`: its longest text plus `padding` on both sides,
/// saturated at `usize::MAX`.
pub open spec fn column_width(
    header: Seq<char>,
    rows: Seq<Seq<Seq<char>>>,
    i: int,
    padding: int,
) -> int {
    let w = column_max(header, rows, i) + 2 * padding;
    if w > usize::MAX { usize::MAX as int } else { w }
}

/// The abstract state of a [`Table`].
pub ghost struct TableView {
    pub headers: Seq<Seq<char>>,
    pub rows: Seq<Seq<Seq<char>>>,
    pub selected: int,
    pub offset: int,
    pub height: int,
    pub padding: int,
}

impl TableView {
    /// One cell per header in every row; the selected row is a row of the table
    /// (row 0 of an empty table) and lies inside the window.
    pub open spec fn valid(self) -> bool {
        &&& self.height > 0
        &&& forall|r: int| 0 <= r < self.rows.len() ==> self.rows[r].len() == self.headers.len()
        &&& self.rows.len() == 0 ==> self.selected == 0 && self.offset == 0
        &&& self.rows.len() > 0 ==> 0 <= self.selected < self.rows.len() && in_window(
            self.selected,
            self.offset,
            self.height,
        )
    }

    /// One row down; nothing on the last row.
    pub open spec fn down(self) -> TableView {
        if self.selected + 1 < self.rows.len() {
            TableView {
                selected: self.selected + 1,
                offset: follow_to(self.selected + 1, self.height, self.offset),
                ..self
            }
        } else {
            self
        }
    }

    /// One row up; nothing on the first row.
    pub open spec fn up(self) -> TableView {
        if self.selected > 0 {
            TableView {
                selected: self.selected - 1,
                offset: follow_to(self.selected - 1, self.height, self.offset),
                ..self
            }
        } else {
            self
        }
    }

    /// The state after `k` steps down.
    pub open spec fn down_n(self, k: nat) -> TableView
        decreases k,
    {
        if k == 0 {
            self
        } else {
            self.down().down_n((k - 1) as nat)
        }
    }
}

/// `k` steps down from row `s` reach row `min(s + k, last row)`.
pub proof fn lemma_down_n(v: TableView, k: nat)
    requires
        v.valid(),
        v.rows.len() > 0,
    ensures
        v.down_n(k).valid(),
        v.down_n(k).rows == v.rows,
        v.down_n(k).selected == if v.selected + k < v.rows.len() {
            v.selected + k
        } else {
            v.rows.len() - 1
        },
    decreases k,
{
    if k > 0 {
        lemma_down_n(v.down(), (k - 1) as nat);
    }
}

/// On a table of `n` rows with the first selected, `n` steps down (or more)
/// end on the last row, and a further step down changes nothing.
pub proof fn lemma_down_stops_at_last(v: TableView, k: nat)
    requires
        v.valid(),
        v.rows.len() > 0,
        v.selected == 0,
        k >= v.rows.len(),
    ensures
        v.down_n(k).selected == v.rows.len() - 1,
        v.down_n(k).down() == v.down_n(k),
{
    lemma_down_n(v, k);
}

/// A table of text cells with a selected row and a window of `visible_lines`
/// rows that always shows it.
pub struct Table {
    table_headers: Vec<String>,
    table_data: Vec<Vec<String>>,
    selected_row: usize,
    padding: usize,
    visible_lines: usize,
    scroll_offset: usize,
}

impl View for Table {
    type V = TableView;

    closed spec fn view(&self) -> TableView {
        TableView {
            headers: headers_view(self.table_headers@),
            rows: rows_view(self.table_data@),
            selected: self.selected_row as int,
            offset: self.scroll_offset as int,
            height: self.visible_lines as int,
            padding: self.padding as int,
        }
    }
}

/// Whether every row has exactly `n` cells.
fn rows_have_len(data: &Vec<Vec<String>>, n: usize) -> (r: bool)
    ensures
        r == forall|k: int| 0 <= k < data@.len() ==> data@[k]@.len() == n,
{
    let mut k: usize = 0;
    while k < data.len()
        invariant
            k <= data@.len(),
            forall|j: int| 0 <= j < k ==> data@[j]@.len() == n,
        decreases data@.len() - k,
    {
        if data[k].len() != n {
            return false;
        }
        k = k + 1;
    }
    true
}

impl Table {
    /// A table of `table_headers` and `table_data` with `selected_row`
    /// selected and the window placed to show it. Fails on an empty window, on a
    /// row without exactly one cell per header, and on a selected row that is
    /// not a row of the table (only row 0 is allowed for an empty table), in
    /// that order.
    pub fn new(
        table_headers: Vec<String>,
        table_data: Vec<Vec<String>>,
        selected_row: usize,
        padding: usize,
        visible_lines: usize,
    ) -> (r: Result<Table, ConfigError>)
        ensures
            r is Ok <==> visible_lines > 0 && (forall|k: int|
                0 <= k < table_data@.len() ==> table_data@[k]@.len() == table_headers@.len())
                && (selected_row < table_data@.len() || (table_data@.len() == 0 && selected_row
                == 0)),
            r == Err::<Table, ConfigError>(ConfigError::ZeroWindow) <==> visible_lines == 0,
            r == Err::<Table, ConfigError>(ConfigError::RaggedRow) <==> visible_lines > 0
                && exists|k: int|
                0 <= k < table_data@.len() && table_data@[k]@.len() != table_headers@.len(),
            r == Err::<Table, ConfigError>(ConfigError::SelectedOutOfRange) <==> visible_lines > 0
                && (forall|k: int|
                0 <= k < table_data@.len() ==> table_data@[k]@.len() == table_headers@.len())
                && !(selected_row < table_data@.len() || (table_data@.len() == 0
                && selected_row == 0)),
            r matches Ok(t) ==> {
                &&& t@.valid()
                &&& t@ == TableView {
                    headers: headers_view(table_headers@),
                    rows: rows_view(table_data@),
                    selected: selected_row as int,
                    offset: follow_to(selected_row as int, visible_lines as int, 0),
                    height: visible_lines as int,
                    padding: padding as int,
                }
            },
    {
        if visible_lines == 0 {
            return Err(ConfigError::ZeroWindow);
        }
        if !rows_have_len(&table_data, table_headers.len()) {
            return Err(ConfigError::RaggedRow);
        }
        let n = table_data.len();
        if !(selected_row < n || (n == 0 && selected_row == 0)) {
            return Err(ConfigError::SelectedOutOfRange);
        }
        let scroll_offset = adjust(Some(selected_row), n, visible_lines, 0);
        Ok(
            Table {
                table_headers,
                table_data,
                selected_row,
                padding,
                visible_lines,
                scroll_offset,
            },
        )
    }

    /// The width of each column: its longest text, in characters, plus
    /// `padding` on both sides.
    pub fn calculate_column_widths(
        headers: &Vec<String>,
        data: &Vec<Vec<String>>,
        padding: usize,
    ) -> (r: Vec<usize>)
        requires
            rows_reach(rows_view(data@), headers@.len() as int),
        ensures
            r@.len() == headers@.len(),
            forall|i: int|
                0 <= i < r@.len() ==> r@[i] == column_width(
                    headers@[i]@,
                    rows_view(data@),
                    i,
                    padding as int,
                ),
    {
        let ghost rows = rows_view(data@);
        let h = headers.len();
        let mut widths: Vec<usize> = Vec::new();
        let mut i: usize = 0;
        while i < h
            invariant
                h == headers@.len(),
                rows == rows_view(data@),
                rows_reach(rows, h as int),
                i <= h,
                widths@.len() == i,
                forall|j: int|
                    0 <= j < i ==> widths@[j] == column_width(
                        headers@[j]@,
                        rows,
                        j,
                        padding as int,
                    ),
            decreases h - i,
        {
            let mut m = headers[i].as_str().unicode_len();
            let mut k: usize = 0;
            while k < data.len()
                invariant
                    h == headers@.len(),
                    rows == rows_view(data@),
                    rows_reach(rows, h as int),
                    i < h,
                    k <= data@.len(),
                    m == column_max(headers@[i as int]@, rows.subrange(0, k as int), i as int),
                decreases data@.len() - k,
            {
                assert(rows.subrange(0, k + 1).drop_last() =~= rows.subrange(0, k as int));
                assert(rows[k as int].len() >= h);
                let l = data[k][i].as_str().unicode_len();
                if l > m {
                    m = l;
                }
                k = k + 1;
            }
            assert(rows.subrange(0, data@.len() as int) =~= rows);
            let w = if padding > (usize::MAX - m) / 2 {
                usize::MAX
            } else {
                m + 2 * padding
            };
            widths.push(w);
            i = i + 1;
        }
        widths
    }

    /// The width of each column of this table.
    pub fn column_widths(&self) -> (r: Vec<usize>)
        requires
            self@.valid(),
        ensures
            r@.len() == self@.headers.len(),
            forall|i: int|
                0 <= i < r@.len() ==> r@[i] == column_width(
                    self@.headers[i],
                    self@.rows,
                    i,
                    self@.padding,
                ),
    {
        Self::calculate_column_widths(&self.table_headers, &self.table_data, self.padding)
    }

    /// Selects the next row; nothing on the last row.
    pub fn move_cursor_down(&mut self)
        requires
            old(self)@.valid(),
        ensures
            final(self)@ == old(self)@.down(),
            final(self)@.valid(),
    {
        let n = self.table_data.len();
        if self.selected_row + 1 < n {
            self.selected_row = self.selected_row + 1;
            self.scroll_offset = adjust(
                Some(self.selected_row),
                n,
                self.visible_lines,
                self.scroll_offset,
            );
        }
    }

    /// Selects the previous row; nothing on the first row.
    pub fn move_cursor_up(&mut self)
        requires
            old(self)@.valid(),
        ensures
            final(self)@ == old(self)@.up(),
            final(self)@.valid(),
    {
        if self.selected_row > 0 {
            self.selected_row = self.selected_row - 1;
            self.scroll_offset = adjust(
                Some(self.selected_row),
                self.table_data.len(),
                self.visible_lines,
                self.scroll_offset,
            );
        }
    }

    /// One step of a browsing session: returns whether the session ends (Esc or
    /// control-`c`); otherwise the up and down arrows move the selection.
    pub fn handle_event(&mut self, ev: InputEvent) -> (done: bool)
        requires
            old(self)@.valid(),
        ensures
            final(self)@.valid(),
            done == closes_indicator(ev),
            final(self)@ == match ev {
                InputEvent::Key(Key::Up, _) => old(self)@.up(),
                InputEvent::Key(Key::Down, _) => old(self)@.down(),
                _ => old(self)@,
            },
    {
        match ev {
            InputEvent::Key(Key::Up, _) => self.move_cursor_up(),
            InputEvent::Key(Key::Down, _) => self.move_cursor_down(),
            _ => {},
        }
        closes_on_escape(ev)
    }

    /// The selected row.
    pub fn selected_row(&self) -> (r: usize)
        ensures
            r == self@.selected,
    {
        self.selected_row
    }

    /// The first row the window shows.
    pub fn scroll_offset(&self) -> (r: usize)
        ensures
            r == self@.offset,
    {
        self.scroll_offset
    }

    /// How many rows the window shows.
    pub fn visible_lines(&self) -> (r: usize)
        ensures
            r == self@.height,
    {
        self.visible_lines
    }

    /// The padding on each side of a cell.
    pub fn padding(&self) -> (r: usize)
        ensures
            r == self@.padding,
    {
        self.padding
    }

    /// The headers.
    pub fn headers(&self) -> (r: &Vec<String>)
        ensures
            headers_view(r@) == self@.headers,
    {
        &self.table_headers
    }

    /// The rows.
    pub fn data(&self) -> (r: &Vec<Vec<String>>)
        ensures
            rows_view(r@) == self@.rows,
    {
        &self.table_data
    }
}

} // verus!
