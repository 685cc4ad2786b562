use vstd::prelude::*;
use crate::key_value::KeyValue;
use crate::key_value::KeyValueView;
use crate::key_value::views;
use crate::text_input::TextInput;
use crate::text_input::TextInputView;

verus! {

/// A table of key/value rows, the cell that is selected in it as
/// `(row, column)`, and the buffer in which the selected cell is edited.
/// Column 0 is the key and column 1 the value.
#[derive(Debug)]
pub struct StatefulCustomTable {
    pub rows: Vec<KeyValue>,
    pub selection: Option<(usize, usize)>,
    pub selection_text_input: TextInput,
}

/// What a [`StatefulCustomTable`] holds.
#[verifier::ext_equal]
pub struct TableView {
    pub rows: Seq<KeyValueView>,
    pub selection: Option<(usize, usize)>,
    pub selection_text_input: TextInputView,
}

impl View for StatefulCustomTable {
    type V = TableView;

    open spec fn view(&self) -> TableView {
        TableView {
            rows: views(self.rows@),
            selection: self.selection,
            selection_text_input: self.selection_text_input@,
        }
    }
}

/// The selection a table of `rows` rows starts with: its first cell, or
/// nothing where it has no row.
pub open spec fn default_selection(rows: nat) -> Option<(usize, usize)> {
    if rows > 0 {
        Some((0usize, 0usize))
    } else {
        None
    }
}

/// The selection kept where its row is still there, the default otherwise.
pub open spec fn retained_selection(selection: Option<(usize, usize)>, rows: nat) -> Option<
    (usize, usize),
> {
    match selection {
        Some((row, column)) => if row < rows {
            selection
        } else {
            default_selection(rows)
        },
        None => default_selection(rows),
    }
}

/// The text of the cell that `selection` denotes in `rows`: the key in column
/// 0, the value in column 1, no text in any other column. `None` where nothing
/// is selected or the selected row of column 0 or 1 does not exist.
pub open spec fn cell_text(rows: Seq<KeyValueView>, selection: Option<(usize, usize)>) -> Option<
    Seq<char>,
> {
    match selection {
        None => None,
        Some((row, column)) => if column == 0 {
            if row < rows.len() {
                Some(rows[row as int].key)
            } else {
                None
            }
        } else if column == 1 {
            if row < rows.len() {
                Some(rows[row as int].value)
            } else {
                None
            }
        } else {
            Some(Seq::empty())
        },
    }
}

/// `text`, or no text for `None`.
pub open spec fn text_or_empty(text: Option<Seq<char>>) -> Seq<char> {
    match text {
        Some(text) => text,
        None => Seq::empty(),
    }
}

impl TableView {
    /// A table without rows, selection or text under edit.
    pub open spec fn empty() -> TableView {
        TableView { rows: Seq::empty(), selection: None, selection_text_input: TextInputView::empty() }
    }

    /// The selection, if there is one, names a row of the table.
    pub open spec fn selection_valid(self) -> bool {
        self.selection matches Some((row, column)) ==> row < self.rows.len()
    }

    /// The text of the selected cell (see [`cell_text`]).
    pub open spec fn selected_text(self) -> Option<Seq<char>> {
        cell_text(self.rows, self.selection)
    }

    /// The selection put back to the default for the rows at hand.
    pub open spec fn reselected(self) -> TableView {
        TableView { selection: default_selection(self.rows.len()), ..self }
    }

    /// The table with new rows and the default selection.
    pub open spec fn showing(self, rows: Seq<KeyValueView>) -> TableView {
        TableView { rows, ..self }.reselected()
    }

    /// The table with `text` under edit, the cursor at its end.
    pub open spec fn editing(self, text: Seq<char>) -> TableView {
        TableView { selection_text_input: TextInputView::loaded(text), ..self }
    }

    /// The table with new rows, the selection kept where its row is still
    /// there, and the selected cell's text under edit.
    pub open spec fn refreshed(self, rows: Seq<KeyValueView>) -> TableView {
        let selection = retained_selection(self.selection, rows.len());
        TableView {
            rows,
            selection,
            selection_text_input: TextInputView::loaded(text_or_empty(cell_text(rows, selection))),
        }
    }
}

impl StatefulCustomTable {
    pub fn new() -> (table: StatefulCustomTable)
        ensures
            table@ == TableView::empty(),
    {
        let table = StatefulCustomTable {
            rows: Vec::new(),
            selection: None,
            selection_text_input: TextInput::new(),
        };
        assert(table@.rows =~= Seq::<KeyValueView>::empty());
        table
    }

    /// A copy of the text of the selected cell, where the selection denotes one.
    pub fn selected_text(&self) -> (text: Option<String>)
        ensures
            match text {
                Some(text) => self@.selected_text() == Some(text@),
                None => self@.selected_text() is None,
            },
    {
        match self.selection {
            None => None,
            Some((row, column)) => {
                if column == 0 {
                    if row < self.rows.len() {
                        Some(self.rows[row].data.0.clone())
                    } else {
                        None
                    }
                } else if column == 1 {
                    if row < self.rows.len() {
                        Some(self.rows[row].data.1.clone())
                    } else {
                        None
                    }
                } else {
                    Some(String::new())
                }
            },
        }
    }

    /// Puts the selection back to the default for the rows at hand.
    pub fn update_selection(&mut self)
        ensures
            final(self)@ == old(self)@.reselected(),
    {
        if self.rows.len() > 0 {
            self.selection = Some((0, 0));
        } else {
            self.selection = None;
        }
    }

    /// Replaces the rows and puts the selection to its default.
    pub fn show(&mut self, rows: Vec<KeyValue>)
        ensures
            final(self)@ == old(self)@.showing(views(rows@)),
    {
        self.rows = rows;
        self.update_selection();
    }

    /// Replaces the rows, keeps the selection where its row is still there,
    /// and loads the selected cell's text into the edit buffer.
    pub fn refresh(&mut self, rows: Vec<KeyValue>)
        ensures
            final(self)@ == old(self)@.refreshed(views(rows@)),
    {
        self.rows = rows;
        let kept = match self.selection {
            Some((row, column)) => row < self.rows.len(),
            None => false,
        };
        if !kept {
            self.update_selection();
        }
        let text = match self.selected_text() {
            Some(text) => text,
            None => String::new(),
        };
        self.selection_text_input.load(&text);
    }
}

} // verus!
