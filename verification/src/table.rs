//! The in-memory result of a successful query: named columns and rows of
//! cell texts.

use vstd::prelude::*;

verus! {

/// Mathematical model of a [`Table`]: the column names and the rows, each
/// cell as a sequence of characters.
#[verifier::ext_equal]
pub struct TableModel {
    pub columns: Seq<Seq<char>>,
    pub rows: Seq<Seq<Seq<char>>>,
}

impl TableModel {
    /// Every row has exactly one cell per column.
    pub open spec fn wf(self) -> bool {
        forall|i: int| 0 <= i < self.rows.len() ==> (#[trigger] self.rows[i]).len()
            == self.columns.len()
    }
}

/// The view of a sequence of strings: each string replaced by its characters.
pub open spec fn strs_view(ss: Seq<String>) -> Seq<Seq<char>> {
    ss.map_values(|s: String| s@)
}

/// The view of a sequence of rows of strings.
pub open spec fn rows_view(rs: Seq<Vec<String>>) -> Seq<Seq<Seq<char>>> {
    rs.map_values(|r: Vec<String>| strs_view(r@))
}

/// The parsed tabular result of a query. Ownership passes to the caller;
/// the client manages no further lifecycle for it.
#[derive(Debug)]
pub struct Table {
    /// The column names, in the order the service listed them.
    pub columns: Vec<String>,
    /// The rows, in the order the service listed them; each row holds one
    /// cell text per column.
    pub rows: Vec<Vec<String>>,
}

impl View for Table {
    type V = TableModel;

    open spec fn view(&self) -> TableModel {
        TableModel { columns: strs_view(self.columns@), rows: rows_view(self.rows@) }
    }
}

impl Table {
    /// The number of columns.
    pub fn n_columns(&self) -> (r: usize)
        ensures
            r == self@.columns.len(),
    {
        self.columns.len()
    }

    /// The number of rows.
    pub fn n_rows(&self) -> (r: usize)
        ensures
            r == self@.rows.len(),
    {
        self.rows.len()
    }
}

} // verus!
