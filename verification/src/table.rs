//! Tables: an interface to the LaTeX `tabular` environment.

use crate::convert::IntoNode;
use crate::text::{
    char_to_string, decimal, decimal_string, signed_decimal, signed_decimal_string,
};
use vstd::prelude::*;
use vstd::std_specs::iter::IteratorSpec;

verus! {

/// Column alignment. Part of the "table spec" argument.
#[derive(Clone, Copy, Debug, PartialEq, Eq, Structural)]
pub enum ColumnAlignment {
    /// left-justified column
    Left,
    /// right-justified column
    Right,
    /// centered column
    Center,
}

impl ColumnAlignment {
    /// The letter that stands for this alignment in a table spec.
    pub open spec fn code(self) -> char {
        match self {
            ColumnAlignment::Left => 'l',
            ColumnAlignment::Right => 'r',
            ColumnAlignment::Center => 'c',
        }
    }

    /// The alignment's letter as a string.
    pub fn as_str(&self) -> (code: &'static str)
        ensures
            code@ == seq![self.code()],
    {
        proof {
            reveal_strlit("l");
            reveal_strlit("r");
            reveal_strlit("c");
        }
        let code = match self {
            ColumnAlignment::Left => "l",
            ColumnAlignment::Right => "r",
            ColumnAlignment::Center => "c",
        };
        assert(code@ =~= seq![self.code()]);
        code
    }
}

impl Default for ColumnAlignment {
    fn default() -> (alignment: ColumnAlignment)
        ensures
            alignment == ColumnAlignment::Left,
    {
        ColumnAlignment::Left
    }
}

/// The typed settings of one column.
#[derive(Clone, Copy, Debug, PartialEq, Eq, Structural)]
pub struct TableColumnSettings {
    /// The alignment of the colum.
    pub alignment: ColumnAlignment,
}

impl Default for TableColumnSettings {
    fn default() -> (settings: TableColumnSettings)
        ensures
            settings == default_column_settings(),
    {
        TableColumnSettings { alignment: ColumnAlignment::Left }
    }
}

/// The settings of a column for which none were given: left-justified.
pub open spec fn default_column_settings() -> TableColumnSettings {
    TableColumnSettings { alignment: ColumnAlignment::Left }
}

impl TableColumnSettings {
    /// Change the alignment of the column, and return the changed settings.
    pub fn alignment(&mut self, column_alignment: ColumnAlignment) -> (changed: Self)
        ensures
            final(self).alignment == column_alignment,
            changed == *final(self),
    {
        self.alignment = column_alignment;
        *self
    }
}

/// The mathematical value of a [`TableColumnSettingsWrapper`].
pub enum ColumnSettingsView {
    /// Typed settings, one for each column they were given for.
    Typed(Seq<TableColumnSettings>),
    /// A raw table spec.
    Raw(Seq<char>),
}

/// Either a typed or a raw `table spec` argument of the `tabular`
/// environment.
#[derive(Debug, PartialEq)]
pub enum TableColumnSettingsWrapper {
    /// Column settings as typed struct.
    Typed(Vec<TableColumnSettings>),
    /// Column settings as raw LaTeX.
    Raw(String),
}

impl View for TableColumnSettingsWrapper {
    type V = ColumnSettingsView;

    open spec fn view(&self) -> ColumnSettingsView {
        match self {
            TableColumnSettingsWrapper::Typed(settings) => ColumnSettingsView::Typed(settings@),
            TableColumnSettingsWrapper::Raw(raw) => ColumnSettingsView::Raw(raw@),
        }
    }
}

impl Clone for TableColumnSettingsWrapper {
    fn clone(&self) -> (copy: TableColumnSettingsWrapper)
        ensures
            copy@ == self@,
    {
        match self {
            TableColumnSettingsWrapper::Typed(settings) => TableColumnSettingsWrapper::Typed(
                copy_settings(settings),
            ),
            TableColumnSettingsWrapper::Raw(raw) => TableColumnSettingsWrapper::Raw(raw.clone()),
        }
    }
}

impl Default for TableColumnSettingsWrapper {
    fn default() -> (wrapper: TableColumnSettingsWrapper)
        ensures
            wrapper@ == ColumnSettingsView::Typed(Seq::empty()),
    {
        TableColumnSettingsWrapper::Typed(Vec::new())
    }
}

impl TableColumnSettingsWrapper {
    /// Checks if the `TableColumnSettingsWrapper` is empty: no typed
    /// settings, or an empty raw spec.
    pub fn is_empty(&self) -> (empty: bool)
        ensures
            empty == match self@ {
                ColumnSettingsView::Typed(settings) => settings.len() == 0,
                ColumnSettingsView::Raw(raw) => raw.len() == 0,
            },
    {
        match self {
            TableColumnSettingsWrapper::Typed(settings) => settings.is_empty(),
            TableColumnSettingsWrapper::Raw(settings) => settings.as_str().is_empty(),
        }
    }
}

impl IntoNode<TableColumnSettingsWrapper> for Vec<TableColumnSettings> {
    open spec fn node_view(self) -> ColumnSettingsView {
        ColumnSettingsView::Typed(self@)
    }

    fn into_node(self) -> (node: TableColumnSettingsWrapper) {
        TableColumnSettingsWrapper::Typed(self)
    }
}

impl IntoNode<TableColumnSettingsWrapper> for TableColumnSettings {
    open spec fn node_view(self) -> ColumnSettingsView {
        ColumnSettingsView::Typed(seq![self])
    }

    fn into_node(self) -> (node: TableColumnSettingsWrapper) {
        let mut settings = Vec::new();
        settings.push(self);
        assert(settings@ =~= seq![self]);
        TableColumnSettingsWrapper::Typed(settings)
    }
}

impl IntoNode<TableColumnSettingsWrapper> for String {
    open spec fn node_view(self) -> ColumnSettingsView {
        ColumnSettingsView::Raw(self@)
    }

    fn into_node(self) -> (node: TableColumnSettingsWrapper) {
        TableColumnSettingsWrapper::Raw(self)
    }
}

impl<'a> IntoNode<TableColumnSettingsWrapper> for &'a str {
    open spec fn node_view(self) -> ColumnSettingsView {
        ColumnSettingsView::Raw(self@)
    }

    fn into_node(self) -> (node: TableColumnSettingsWrapper) {
        TableColumnSettingsWrapper::Raw(self.to_owned())
    }
}

/// The standard conversion; the node is that of [`IntoNode`].
impl From<Vec<TableColumnSettings>> for TableColumnSettingsWrapper {
    fn from(other: Vec<TableColumnSettings>) -> (node: TableColumnSettingsWrapper)
        ensures
            node@ == ColumnSettingsView::Typed(other@),
    {
        TableColumnSettingsWrapper::Typed(other)
    }
}

/// The node is the variant around the value.
impl vstd::std_specs::convert::FromSpecImpl<Vec<TableColumnSettings>> for TableColumnSettingsWrapper {
    open spec fn obeys_from_spec() -> bool {
        true
    }

    open spec fn from_spec(other: Vec<TableColumnSettings>) -> TableColumnSettingsWrapper {
        TableColumnSettingsWrapper::Typed(other)
    }
}

/// The standard conversion; the node is that of [`IntoNode`].
impl From<TableColumnSettings> for TableColumnSettingsWrapper {
    fn from(other: TableColumnSettings) -> (node: TableColumnSettingsWrapper)
        ensures
            node@ == ColumnSettingsView::Typed(seq![other]),
    {
        other.into_node()
    }
}

/// The node is fixed by its view: a contract cannot name the value
/// itself, which holds strings.
impl vstd::std_specs::convert::FromSpecImpl<TableColumnSettings> for TableColumnSettingsWrapper {
    open spec fn obeys_from_spec() -> bool {
        false
    }

    open spec fn from_spec(other: TableColumnSettings) -> TableColumnSettingsWrapper {
        arbitrary()
    }
}

/// The standard conversion; the node is that of [`IntoNode`].
impl From<String> for TableColumnSettingsWrapper {
    fn from(other: String) -> (node: TableColumnSettingsWrapper)
        ensures
            node@ == ColumnSettingsView::Raw(other@),
    {
        TableColumnSettingsWrapper::Raw(other)
    }
}

/// The node is the variant around the value.
impl vstd::std_specs::convert::FromSpecImpl<String> for TableColumnSettingsWrapper {
    open spec fn obeys_from_spec() -> bool {
        true
    }

    open spec fn from_spec(other: String) -> TableColumnSettingsWrapper {
        TableColumnSettingsWrapper::Raw(other)
    }
}

/// The standard conversion; the node is that of [`IntoNode`].
impl<'a> From<&'a str> for TableColumnSettingsWrapper {
    fn from(other: &'a str) -> (node: TableColumnSettingsWrapper)
        ensures
            node@ == ColumnSettingsView::Raw(other@),
    {
        other.into_node()
    }
}

/// The node is fixed by its view: a contract cannot name the value
/// itself, which holds strings.
impl<'a> vstd::std_specs::convert::FromSpecImpl<&'a str> for TableColumnSettingsWrapper {
    open spec fn obeys_from_spec() -> bool {
        false
    }

    open spec fn from_spec(other: &'a str) -> TableColumnSettingsWrapper {
        arbitrary()
    }
}

/// A copy of a vector of column settings.
fn copy_settings(settings: &Vec<TableColumnSettings>) -> (copy: Vec<TableColumnSettings>)
    ensures
        copy@ == settings@,
{
    let mut copy: Vec<TableColumnSettings> = Vec::new();
    let mut i: usize = 0;
    while i < settings.len()
        invariant
            i <= settings.len(),
            copy@ == settings@.take(i as int),
        decreases settings.len() - i,
    {
        copy.push(settings[i]);
        i += 1;
    }
    assert(settings@.take(i as int) =~= settings@);
    copy
}

/// A value that can stand in a table cell: it has a text.
pub trait ToCell {
    /// The text of the cell.
    spec fn cell_text(&self) -> Seq<char>;

    /// Write the value as the text of a cell.
    fn to_cell(&self) -> (cell: String)
        ensures
            cell@ == self.cell_text(),
    ;
}

impl<'a> ToCell for &'a str {
    open spec fn cell_text(&self) -> Seq<char> {
        self@
    }

    fn to_cell(&self) -> (cell: String) {
        (*self).to_owned()
    }
}

impl ToCell for String {
    open spec fn cell_text(&self) -> Seq<char> {
        self@
    }

    fn to_cell(&self) -> (cell: String) {
        self.clone()
    }
}

impl ToCell for u8 {
    open spec fn cell_text(&self) -> Seq<char> {
        decimal(*self as nat)
    }

    fn to_cell(&self) -> (cell: String) {
        decimal_string(*self as u128)
    }
}

impl ToCell for u16 {
    open spec fn cell_text(&self) -> Seq<char> {
        decimal(*self as nat)
    }

    fn to_cell(&self) -> (cell: String) {
        decimal_string(*self as u128)
    }
}

impl ToCell for u32 {
    open spec fn cell_text(&self) -> Seq<char> {
        decimal(*self as nat)
    }

    fn to_cell(&self) -> (cell: String) {
        decimal_string(*self as u128)
    }
}

impl ToCell for u64 {
    open spec fn cell_text(&self) -> Seq<char> {
        decimal(*self as nat)
    }

    fn to_cell(&self) -> (cell: String) {
        decimal_string(*self as u128)
    }
}

impl ToCell for u128 {
    open spec fn cell_text(&self) -> Seq<char> {
        decimal(*self as nat)
    }

    fn to_cell(&self) -> (cell: String) {
        decimal_string(*self as u128)
    }
}

impl ToCell for usize {
    open spec fn cell_text(&self) -> Seq<char> {
        decimal(*self as nat)
    }

    fn to_cell(&self) -> (cell: String) {
        decimal_string(*self as u128)
    }
}

impl ToCell for i8 {
    open spec fn cell_text(&self) -> Seq<char> {
        signed_decimal(*self as int)
    }

    fn to_cell(&self) -> (cell: String) {
        signed_decimal_string(*self as i128)
    }
}

impl ToCell for i16 {
    open spec fn cell_text(&self) -> Seq<char> {
        signed_decimal(*self as int)
    }

    fn to_cell(&self) -> (cell: String) {
        signed_decimal_string(*self as i128)
    }
}

impl ToCell for i32 {
    open spec fn cell_text(&self) -> Seq<char> {
        signed_decimal(*self as int)
    }

    fn to_cell(&self) -> (cell: String) {
        signed_decimal_string(*self as i128)
    }
}

impl ToCell for i64 {
    open spec fn cell_text(&self) -> Seq<char> {
        signed_decimal(*self as int)
    }

    fn to_cell(&self) -> (cell: String) {
        signed_decimal_string(*self as i128)
    }
}

impl ToCell for i128 {
    open spec fn cell_text(&self) -> Seq<char> {
        signed_decimal(*self as int)
    }

    fn to_cell(&self) -> (cell: String) {
        signed_decimal_string(*self)
    }
}

impl ToCell for isize {
    open spec fn cell_text(&self) -> Seq<char> {
        signed_decimal(*self as int)
    }

    fn to_cell(&self) -> (cell: String) {
        signed_decimal_string(*self as i128)
    }
}

impl ToCell for bool {
    open spec fn cell_text(&self) -> Seq<char> {
        if *self {
            "true"@
        } else {
            "false"@
        }
    }

    fn to_cell(&self) -> (cell: String) {
        if *self {
            "true".to_owned()
        } else {
            "false".to_owned()
        }
    }
}

impl ToCell for char {
    open spec fn cell_text(&self) -> Seq<char> {
        seq![*self]
    }

    fn to_cell(&self) -> (cell: String) {
        char_to_string(*self)
    }
}

/// The mathematical value of a [`TableRow`].
pub struct TableRowView {
    /// The text of each cell, in order.
    pub content: Seq<Seq<char>>,
    /// The recorded number of columns, if one was recorded.
    pub columns: Option<usize>,
    /// Whether the row is rendered without a row terminator.
    pub skip_explicit_new_row: bool,
}

/// A Table Row.
#[derive(Debug, PartialEq)]
pub struct TableRow {
    /// The content of the row.
    pub content: Vec<String>,
    /// The number of columns recorded when the row was made.
    pub columns: Option<usize>,
    /// Whether the row terminator is left out when the row is rendered.
    pub skip_explicit_new_row: bool,
}

impl View for TableRow {
    type V = TableRowView;

    open spec fn view(&self) -> TableRowView {
        TableRowView {
            content: self.content@.map_values(|cell: String| cell@),
            columns: self.columns,
            skip_explicit_new_row: self.skip_explicit_new_row,
        }
    }
}

impl Clone for TableRow {
    fn clone(&self) -> (copy: TableRow)
        ensures
            copy@ == self@,
    {
        let mut content: Vec<String> = Vec::new();
        let mut i: usize = 0;
        while i < self.content.len()
            invariant
                i <= self.content.len(),
                content@.len() == i,
                forall|j: int| 0 <= j < i ==> (#[trigger] content@[j])@ == self.content@[j]@,
            decreases self.content.len() - i,
        {
            content.push(self.content[i].clone());
            i += 1;
        }
        let copy = TableRow {
            content,
            columns: self.columns,
            skip_explicit_new_row: self.skip_explicit_new_row,
        };
        assert(copy@.content =~= self@.content);
        copy
    }
}

impl Default for TableRow {
    fn default() -> (row: TableRow)
        ensures
            row@ == (TableRowView {
                content: Seq::empty(),
                columns: None,
                skip_explicit_new_row: false,
            }),
    {
        let row = TableRow { content: Vec::new(), columns: None, skip_explicit_new_row: false };
        assert(row@.content =~= Seq::empty());
        row
    }
}

impl TableRow {
    /// Pushes an item to the row. The recorded number of columns stays as
    /// it is.
    pub fn push_item<I: ToCell>(&mut self, item: I) -> (ret: &mut Self)
        ensures
            ret@ == (TableRowView {
                content: old(self)@.content.push(item.cell_text()),
                ..old(self)@
            }),
            *final(self) == *final(ret),
    {
        self.content.push(item.to_cell());
        assert(self@.content =~= old(self)@.content.push(item.cell_text()));
        self
    }
}

/// A value that can be turned into a row of a table.
pub trait IntoTableRow: Sized {
    /// The view of the row that `self` is converted into.
    spec fn row_view(self) -> TableRowView;

    /// Convert `self` into a row.
    fn into_table_row(self) -> (row: TableRow)
        ensures
            row@ == self.row_view(),
    ;
}

impl<T: ToCell> IntoTableRow for Vec<T> {
    open spec fn row_view(self) -> TableRowView {
        TableRowView {
            content: self@.map_values(|item: T| item.cell_text()),
            columns: Some(self@.len() as usize),
            skip_explicit_new_row: false,
        }
    }

    fn into_table_row(self) -> (row: TableRow) {
        let mut row = TableRow { content: Vec::new(), columns: Some(0), skip_explicit_new_row: false };
        let mut i: usize = 0;
        while i < self.len()
            invariant
                i <= self.len(),
                row.columns == Some(i),
                !row.skip_explicit_new_row,
                row.content@.len() == i,
                forall|j: int| 0 <= j < i ==> (#[trigger] row.content@[j])@ == self@[j].cell_text(),
            decreases self.len() - i,
        {
            row.content.push(self[i].to_cell());
            i += 1;
            row.columns = Some(i);
        }
        assert(row@.content =~= self.row_view().content);
        row
    }
}

impl<T: ToCell, const N: usize> IntoTableRow for [T; N] {
    open spec fn row_view(self) -> TableRowView {
        TableRowView {
            content: self@.map_values(|item: T| item.cell_text()),
            columns: Some(N),
            skip_explicit_new_row: false,
        }
    }

    fn into_table_row(self) -> (row: TableRow) {
        let mut row = TableRow { content: Vec::new(), columns: Some(0), skip_explicit_new_row: false };
        let mut i: usize = 0;
        while i < N
            invariant
                i <= N,
                self@.len() == N,
                row.columns == Some(i),
                !row.skip_explicit_new_row,
                row.content@.len() == i,
                forall|j: int| 0 <= j < i ==> (#[trigger] row.content@[j])@ == self@[j].cell_text(),
            decreases N - i,
        {
            row.content.push(self[i].to_cell());
            i += 1;
            row.columns = Some(i);
        }
        assert(row@.content =~= self.row_view().content);
        row
    }
}

/// A Horizontal Line in a Table.
#[derive(Clone, Copy, Debug, PartialEq, Eq, Structural)]
pub struct TableHLine {}

impl Default for TableHLine {
    fn default() -> (line: TableHLine) {
        TableHLine {  }
    }
}

/// The marker of a horizontal rule.
pub open spec fn hline_marker() -> Seq<char> {
    "\\hline"@
}

impl IntoTableRow for TableHLine {
    open spec fn row_view(self) -> TableRowView {
        TableRowView {
            content: seq![hline_marker()],
            columns: None,
            skip_explicit_new_row: true,
        }
    }

    fn into_table_row(self) -> (row: TableRow) {
        let mut content: Vec<String> = Vec::new();
        content.push("\\hline".to_owned());
        let row = TableRow { content, columns: None, skip_explicit_new_row: true };
        assert(row@.content =~= seq![hline_marker()]);
        row
    }
}

/// The number of columns that a row counts for: the recorded number, or
/// zero where none was recorded.
pub open spec fn row_columns(row: TableRowView) -> nat {
    match row.columns {
        Some(columns) => columns as nat,
        None => 0,
    }
}

/// The largest number of columns that a row of `rows` counts for; zero for
/// no rows.
pub open spec fn max_columns(rows: Seq<TableRowView>) -> nat
    decreases rows.len(),
{
    if rows.len() == 0 {
        0
    } else if row_columns(rows.last()) > max_columns(rows.drop_last()) {
        row_columns(rows.last())
    } else {
        max_columns(rows.drop_last())
    }
}

/// `max_columns` is the least upper bound of the rows' column counts: no
/// row counts for more, and a row counts for exactly that many unless it
/// is zero.
pub proof fn lemma_max_columns(rows: Seq<TableRowView>)
    ensures
        forall|i: int| 0 <= i < rows.len() ==> row_columns(#[trigger] rows[i]) <= max_columns(rows),
        max_columns(rows) == 0 || exists|i: int|
            0 <= i < rows.len() && row_columns(#[trigger] rows[i]) == max_columns(rows),
    decreases rows.len(),
{
    if rows.len() > 0 {
        let front = rows.drop_last();
        lemma_max_columns(front);
        assert forall|i: int| 0 <= i < rows.len() implies row_columns(#[trigger] rows[i])
            <= max_columns(rows) by {
            if i < front.len() {
                assert(rows[i] == front[i]);
            }
        }
        if max_columns(rows) != 0 {
            if row_columns(rows.last()) > max_columns(front) {
                assert(row_columns(rows[rows.len() - 1]) == max_columns(rows));
            } else {
                let i = choose|i: int|
                    0 <= i < front.len() && row_columns(#[trigger] front[i]) == max_columns(front);
                assert(rows[i] == front[i]);
            }
        }
    }
}

/// The settings that hold for a column: its own where they were given,
/// else those of the last column that has some, else the default.
pub open spec fn effective_settings(
    settings: Seq<TableColumnSettings>,
    column: int,
) -> TableColumnSettings {
    if 0 <= column < settings.len() {
        settings[column]
    } else if settings.len() > 0 {
        settings.last()
    } else {
        default_column_settings()
    }
}

/// The mathematical value of a [`Table`].
pub struct TableView {
    /// The rows, in order.
    pub content: Seq<TableRowView>,
    /// The column settings.
    pub column_settings: ColumnSettingsView,
}

impl TableView {
    /// The number of columns of the table: the maximum over its rows.
    pub open spec fn number_columns(self) -> nat {
        max_columns(self.content)
    }

    /// The typed settings that were given; none where the settings are raw.
    pub open spec fn typed_settings(self) -> Seq<TableColumnSettings> {
        match self.column_settings {
            ColumnSettingsView::Typed(settings) => settings,
            ColumnSettingsView::Raw(_) => Seq::empty(),
        }
    }

    /// The typed settings with one entry for every column of the table (and
    /// for every column that settings were given for): each column has the
    /// settings that hold for it.
    pub open spec fn normalized_settings(self) -> Seq<TableColumnSettings> {
        let given = self.typed_settings();
        let columns = if given.len() > self.number_columns() {
            given.len()
        } else {
            self.number_columns()
        };
        Seq::new(columns, |column: int| effective_settings(given, column))
    }

    /// The typed settings after those of `column` were replaced. Where typed
    /// settings are given for the column, the list keeps its length and the
    /// other entries. Else the entry is replaced in the normalized settings.
    pub open spec fn replaced_settings(
        self,
        column: int,
        settings: TableColumnSettings,
    ) -> Seq<TableColumnSettings> {
        if self.column_settings is Typed && column < self.typed_settings().len() {
            self.typed_settings().update(column, settings)
        } else {
            self.normalized_settings().update(column, settings)
        }
    }
}

/// A Table that can be added to a Document and rendered as a tabular
/// environment.
#[derive(Debug, PartialEq)]
pub struct Table {
    /// The content of the table as a vector of `TableRow`.
    pub content: Vec<TableRow>,
    /// The colum settings of the table, either typed or raw LaTeX.
    pub column_settings: TableColumnSettingsWrapper,
}

impl View for Table {
    type V = TableView;

    open spec fn view(&self) -> TableView {
        TableView {
            content: self.content@.map_values(|row: TableRow| row@),
            column_settings: self.column_settings@,
        }
    }
}

impl Clone for Table {
    fn clone(&self) -> (copy: Table)
        ensures
            copy@ == self@,
    {
        let mut content: Vec<TableRow> = Vec::new();
        let mut i: usize = 0;
        while i < self.content.len()
            invariant
                i <= self.content.len(),
                content@.len() == i,
                forall|j: int| 0 <= j < i ==> (#[trigger] content@[j])@ == self.content@[j]@,
            decreases self.content.len() - i,
        {
            content.push(self.content[i].clone());
            i += 1;
        }
        let copy = Table { content, column_settings: self.column_settings.clone() };
        assert(copy@.content =~= self@.content);
        copy
    }
}

impl Default for Table {
    fn default() -> (table: Table)
        ensures
            table@ == (TableView {
                content: Seq::empty(),
                column_settings: ColumnSettingsView::Typed(Seq::empty()),
            }),
    {
        Table::new()
    }
}

impl Table {
    /// Creates a new table with default settings: no rows, and typed column
    /// settings for no column.
    pub fn new() -> (table: Table)
        ensures
            table@ == (TableView {
                content: Seq::empty(),
                column_settings: ColumnSettingsView::Typed(Seq::empty()),
            }),
    {
        let table = Table {
            content: Vec::new(),
            column_settings: TableColumnSettingsWrapper::Typed(Vec::new()),
        };
        assert(table@.content =~= Seq::empty());
        table
    }

    /// Push a row to the end of the table.
    pub fn push_row<R: IntoTableRow>(&mut self, row: R) -> (ret: &mut Self)
        ensures
            ret@ == (TableView {
                content: old(self)@.content.push(row.row_view()),
                ..old(self)@
            }),
            *final(self) == *final(ret),
    {
        self.content.push(row.into_table_row());
        assert(self@.content =~= old(self)@.content.push(row.row_view()));
        self
    }

    /// Insert a row at `index`, which is at most the number of rows.
    pub fn insert_row<R: IntoTableRow>(&mut self, index: usize, row: R) -> (ret: &mut Self)
        requires
            index <= old(self)@.content.len(),
        ensures
            ret@ == (TableView {
                content: old(self)@.content.insert(index as int, row.row_view()),
                ..old(self)@
            }),
            *final(self) == *final(ret),
    {
        self.content.insert(index, row.into_table_row());
        assert(self@.content =~= old(self)@.content.insert(index as int, row.row_view()));
        self
    }

    /// Replace the row at `index`, which is less than the number of rows.
    pub fn replace_row<R: IntoTableRow>(&mut self, index: usize, row: R) -> (ret: &mut Self)
        requires
            index < old(self)@.content.len(),
        ensures
            ret@ == (TableView {
                content: old(self)@.content.update(index as int, row.row_view()),
                ..old(self)@
            }),
            *final(self) == *final(ret),
    {
        self.content[index] = row.into_table_row();
        assert(self@.content =~= old(self)@.content.update(index as int, row.row_view()));
        self
    }

    /// Iterate over the rows in this table, in order.
    pub fn iter_row(&self) -> (it: std::slice::Iter<'_, TableRow>)
        ensures
            it.remaining().len() == self@.content.len(),
            forall|i: int|
                0 <= i < self@.content.len() ==> (#[trigger] it.remaining()[i])@
                    == self@.content[i],
    {
        self.content.iter()
    }

    /// Is this table empty?
    pub fn is_empty(&self) -> (empty: bool)
        ensures
            empty == (self@.content.len() == 0),
    {
        self.content.is_empty()
    }

    /// Get the maximum number of columns of all rows.
    pub fn number_columns(&self) -> (columns: usize)
        ensures
            columns == self@.number_columns(),
            forall|i: int|
                0 <= i < self@.content.len() ==> row_columns(#[trigger] self@.content[i])
                    <= columns,
            columns == 0 || exists|i: int|
                0 <= i < self@.content.len() && row_columns(#[trigger] self@.content[i])
                    == columns,
    {
        let mut columns: usize = 0;
        let mut i: usize = 0;
        assert(self@.content.take(0) =~= Seq::empty());
        while i < self.content.len()
            invariant
                i <= self.content.len(),
                columns == max_columns(self@.content.take(i as int)),
            decreases self.content.len() - i,
        {
            let row_columns = match self.content[i].columns {
                Some(recorded) => recorded,
                None => 0,
            };
            proof {
                let next = self@.content.take(i + 1);
                assert(next.drop_last() =~= self@.content.take(i as int));
                assert(next.last() == self@.content[i as int]);
            }
            if row_columns > columns {
                columns = row_columns;
            }
            i += 1;
        }
        proof {
            assert(self@.content.take(i as int) =~= self@.content);
            lemma_max_columns(self@.content);
        }
        columns
    }

    /// Replace column settings for a specific column, which is less than the
    /// number of columns.
    ///
    /// Where typed settings are given for the column, its entry is replaced
    /// and the list stays as long as it was. Else the settings become typed
    /// with an entry for every column of the table first: a column that had
    /// none gets those that held for it before (those of the last column
    /// that had some, or the default where the settings were raw or empty).
    /// Then the entry of `column` is replaced.
    pub fn replace_column_settings(
        &mut self,
        column: usize,
        column_settings: TableColumnSettings,
    ) -> (ret: &mut Self)
        requires
            column < old(self)@.number_columns(),
        ensures
            ret@ == (TableView {
                column_settings: ColumnSettingsView::Typed(
                    old(self)@.replaced_settings(column as int, column_settings),
                ),
                ..old(self)@
            }),
            *final(self) == *final(ret),
    {
        let columns = self.number_columns();
        let mut current_settings = match &self.column_settings {
            TableColumnSettingsWrapper::Typed(settings) => copy_settings(settings),
            TableColumnSettingsWrapper::Raw(_) => Vec::new(),
        };
        let ghost given = current_settings@;
        assert(given == self@.typed_settings());
        if column >= current_settings.len() {
            let padding = if current_settings.len() > 0 {
                current_settings[current_settings.len() - 1]
            } else {
                TableColumnSettings { alignment: ColumnAlignment::Left }
            };
            while current_settings.len() < columns
                invariant
                    given.len() <= current_settings@.len() <= columns,
                    padding == effective_settings(given, given.len() as int),
                    forall|c: int|
                        0 <= c < current_settings@.len() ==> #[trigger] current_settings@[c]
                            == effective_settings(given, c),
                decreases columns - current_settings.len(),
            {
                current_settings.push(padding);
            }
            assert(current_settings@ =~= self@.normalized_settings());
        }
        current_settings[column] = column_settings;
        self.column_settings = TableColumnSettingsWrapper::Typed(current_settings);
        self
    }
}

} // verus!
