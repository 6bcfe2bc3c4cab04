//! Sort-table challenges: rows of words to put in the right columns.

use crate::equality::Equals;
use vstd::prelude::*;

verus! {

/// A sort-table challenge.
#[derive(Debug, PartialEq)]
pub struct SortTable {
    pub id: String,
    pub name: String,
    pub description: String,
    pub columns: Vec<SortTableColumn>,
    pub rows: Vec<SortTableRow>,
}

/// The value of a [`SortTable`].
pub struct SortTableView {
    pub id: Seq<char>,
    pub name: Seq<char>,
    pub description: Seq<char>,
    pub columns: Seq<SortTableColumnView>,
    pub rows: Seq<SortTableRowView>,
}

impl DeepView for SortTable {
    type V = SortTableView;

    open spec fn deep_view(&self) -> SortTableView {
        SortTableView {
            id: self.id@,
            name: self.name@,
            description: self.description@,
            columns: self.columns.deep_view(),
            rows: self.rows.deep_view(),
        }
    }
}

impl View for SortTable {
    type V = SortTableView;

    open spec fn view(&self) -> SortTableView {
        self.deep_view()
    }
}

impl Clone for SortTable {
    fn clone(&self) -> (r: Self)
        ensures
            r@ == self@,
    {
        let id = self.id.clone();
        let name = self.name.clone();
        let description = self.description.clone();
        let columns = self.columns.clone();
        assert(columns.deep_view() =~= self.columns.deep_view());
        let rows = self.rows.clone();
        assert(rows.deep_view() =~= self.rows.deep_view());
        SortTable { id, name, description, columns, rows }
    }
}

impl Equals for SortTable {
    fn equals(&self, other: &Self) -> (r: bool) {
        self.id.equals(&other.id)
            && self.name.equals(&other.name)
            && self.description.equals(&other.description)
            && self.columns.equals(&other.columns)
            && self.rows.equals(&other.rows)
    }
}

/// A column of a sort table.
#[derive(Debug, PartialEq)]
pub struct SortTableColumn {
    pub id: String,
    pub title: String,
    pub description: String,
}

/// The value of a [`SortTableColumn`].
pub struct SortTableColumnView {
    pub id: Seq<char>,
    pub title: Seq<char>,
    pub description: Seq<char>,
}

impl DeepView for SortTableColumn {
    type V = SortTableColumnView;

    open spec fn deep_view(&self) -> SortTableColumnView {
        SortTableColumnView {
            id: self.id@,
            title: self.title@,
            description: self.description@,
        }
    }
}

impl View for SortTableColumn {
    type V = SortTableColumnView;

    open spec fn view(&self) -> SortTableColumnView {
        self.deep_view()
    }
}

impl Clone for SortTableColumn {
    fn clone(&self) -> (r: Self)
        ensures
            r@ == self@,
    {
        let id = self.id.clone();
        let title = self.title.clone();
        let description = self.description.clone();
        SortTableColumn { id, title, description }
    }
}

impl Equals for SortTableColumn {
    fn equals(&self, other: &Self) -> (r: bool) {
        self.id.equals(&other.id)
            && self.title.equals(&other.title)
            && self.description.equals(&other.description)
    }
}

/// A row of a sort table, which is also what a player answers with.
#[derive(Debug, PartialEq, Default)]
pub struct SortTableRow {
    pub id: usize,
    pub values: Vec<String>,
}

/// The value of a [`SortTableRow`].
pub struct SortTableRowView {
    pub id: usize,
    pub values: Seq<Seq<char>>,
}

impl DeepView for SortTableRow {
    type V = SortTableRowView;

    open spec fn deep_view(&self) -> SortTableRowView {
        SortTableRowView {
            id: self.id,
            values: self.values.deep_view(),
        }
    }
}

impl View for SortTableRow {
    type V = SortTableRowView;

    open spec fn view(&self) -> SortTableRowView {
        self.deep_view()
    }
}

impl Clone for SortTableRow {
    fn clone(&self) -> (r: Self)
        ensures
            r@ == self@,
    {
        let id = self.id;
        let values = self.values.clone();
        assert(values.deep_view() =~= self.values.deep_view());
        SortTableRow { id, values }
    }
}

impl Equals for SortTableRow {
    fn equals(&self, other: &Self) -> (r: bool) {
        self.id == other.id
            && self.values.equals(&other.values)
    }
}
/// A column with the given id, title and description.
fn column(id: &str, title: &str, description: &str) -> (r: SortTableColumn)
    ensures
        r@.id == id@ && r@.title == title@ && r@.description == description@,
{
    SortTableColumn { id: id.to_string(), title: title.to_string(), description: description.to_string() }
}

/// A row with the given id and its three values, one per column.
fn row(id: usize, a: &str, b: &str, c: &str) -> (r: SortTableRow)
    ensures
        r@.id == id && r@.values == seq![a@, b@, c@],
{
    let mut values: Vec<String> = Vec::new();
    values.push(a.to_string());
    values.push(b.to_string());
    values.push(c.to_string());
    let r = SortTableRow { id, values };
    assert(r@.values =~= seq![a@, b@, c@]);
    r
}

impl Default for SortTable {
    /// The built-in table of the German personal pronouns in three cases:
    /// three columns, and six rows each with a value per column.
    fn default() -> (r: SortTable)
        ensures
            r@.id == "personal_pronouns"@,
            r@.name == "Personal Pronouns"@,
            r@.description == "Match the personal pronouns in their correct case (Nominativ, Akkusativ, Dativ)"@,
            r@.columns.len() == 3,
            r@.rows.len() == 6,
            forall|i: int| 0 <= i < 6 ==> #[trigger] r@.rows[i].id == i && r@.rows[i].values.len() == 3,
    {
        let mut columns: Vec<SortTableColumn> = Vec::new();
        columns.push(column("nominativ", "Nominativ", "Wer oder was?"));
        columns.push(column("akkusativ", "Akkusativ", "Wen oder was?"));
        columns.push(column("dativ", "Dativ", "Wem?"));
        let mut rows: Vec<SortTableRow> = Vec::new();
        rows.push(row(0, "ich", "mich", "mir"));
        rows.push(row(1, "du", "dich", "dir"));
        rows.push(row(2, "er", "ihn", "ihm"));
        rows.push(row(3, "sie", "sie", "ihr"));
        rows.push(row(4, "wir", "uns", "uns"));
        rows.push(row(5, "ihr", "euch", "euch"));
        SortTable {
            id: "personal_pronouns".to_string(),
            name: "Personal Pronouns".to_string(),
            description: "Match the personal pronouns in their correct case (Nominativ, Akkusativ, Dativ)".to_string(),
            columns,
            rows,
        }
    }
}

} // verus!
