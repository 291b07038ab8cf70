//! Rows of a relational backend as plain values: named cells in column order,
//! and the typed readers that hydration is made of.

use crate::id::Id;
use crate::text::same_text;
use vstd::prelude::*;

verus! {

/// A value as a relational backend stores it.
#[derive(Debug, PartialEq)]
pub enum SqlValue {
    /// SQL `NULL`.
    Null,
    /// A 32-bit integer column; identifiers and references are stored so.
    Integer(i32),
    /// A 64-bit integer column.
    BigInt(i64),
    /// A character column.
    Text(String),
}

/// Mathematical value of a [`SqlValue`].
pub enum SqlValueView {
    Null,
    Integer(i32),
    BigInt(i64),
    Text(Seq<char>),
}

impl View for SqlValue {
    type V = SqlValueView;

    open spec fn view(&self) -> SqlValueView {
        match self {
            SqlValue::Null => SqlValueView::Null,
            SqlValue::Integer(v) => SqlValueView::Integer(*v),
            SqlValue::BigInt(v) => SqlValueView::BigInt(*v),
            SqlValue::Text(s) => SqlValueView::Text(s@),
        }
    }
}

impl Clone for SqlValue {
    fn clone(&self) -> (r: Self)
        ensures
            r == *self,
    {
        match self {
            SqlValue::Null => SqlValue::Null,
            SqlValue::Integer(v) => SqlValue::Integer(*v),
            SqlValue::BigInt(v) => SqlValue::BigInt(*v),
            SqlValue::Text(s) => SqlValue::Text(s.clone()),
        }
    }
}

/// A cell: the name of a column and the value in it.
#[derive(Debug, PartialEq)]
pub struct ColumnValuePair {
    column: String,
    value: SqlValue,
}

/// Mathematical value of a cell.
pub struct CellView {
    pub column: Seq<char>,
    pub value: SqlValueView,
}

impl View for ColumnValuePair {
    type V = CellView;

    closed spec fn view(&self) -> CellView {
        CellView { column: self.column@, value: self.value@ }
    }
}

impl ColumnValuePair {
    pub fn new(column: &str, value: SqlValue) -> (cell: Self)
        ensures
            cell@ == (CellView { column: column@, value: value@ }),
    {
        Self { column: String::from_str(column), value }
    }

    pub fn column(&self) -> (column: &str)
        ensures
            column@ == self@.column,
    {
        self.column.as_str()
    }

    pub fn value(&self) -> (value: &SqlValue)
        ensures
            value@ == self@.value,
    {
        &self.value
    }
}

impl Clone for ColumnValuePair {
    fn clone(&self) -> (r: Self)
        ensures
            r == *self,
    {
        Self { column: self.column.clone(), value: self.value.clone() }
    }
}

/// The views of a sequence of cells.
pub open spec fn cells_view(cells: Seq<ColumnValuePair>) -> Seq<CellView> {
    Seq::new(cells.len(), |i: int| cells[i]@)
}

/// The value a row holds under a column name: that of the last cell of that
/// name.
pub open spec fn lookup(row: Seq<CellView>, column: Seq<char>) -> Option<SqlValueView>
    decreases row.len(),
{
    if row.len() == 0 {
        None
    } else if row.last().column == column {
        Some(row.last().value)
    } else {
        lookup(row.drop_last(), column)
    }
}

/// Why a row could not be hydrated into an entity.
#[derive(Clone, Copy, PartialEq, Eq, Structural, Debug)]
pub enum MappingError {
    /// The row has no column of the name a field is read from.
    MissingColumn,
    /// The column holds a value of another type than the field's.
    WrongType,
}

/// A character field read from `column`.
pub open spec fn text_at(row: Seq<CellView>, column: Seq<char>) -> Result<Seq<char>, MappingError> {
    match lookup(row, column) {
        None => Err(MappingError::MissingColumn),
        Some(SqlValueView::Text(s)) => Ok(s),
        Some(_) => Err(MappingError::WrongType),
    }
}

/// A 32-bit integer field read from `column`.
pub open spec fn integer_at(row: Seq<CellView>, column: Seq<char>) -> Result<i32, MappingError> {
    match lookup(row, column) {
        None => Err(MappingError::MissingColumn),
        Some(SqlValueView::Integer(v)) => Ok(v),
        Some(_) => Err(MappingError::WrongType),
    }
}

/// A reference field read from `column`: the identifier it points at.
pub open spec fn reference_at(row: Seq<CellView>, column: Seq<char>) -> Result<Id, MappingError> {
    match integer_at(row, column) {
        Ok(v) => Ok(Id(v)),
        Err(e) => Err(e),
    }
}

/// An optional 64-bit integer field read from `column`; `NULL` is absence.
pub open spec fn nullable_big_at(row: Seq<CellView>, column: Seq<char>) -> Result<
    Option<i64>,
    MappingError,
> {
    match lookup(row, column) {
        None => Err(MappingError::MissingColumn),
        Some(SqlValueView::BigInt(v)) => Ok(Some(v)),
        Some(SqlValueView::Null) => Ok(None),
        Some(_) => Err(MappingError::WrongType),
    }
}

/// The identity read from `column`. A row without that column, or with `NULL`
/// in it, is a record that has no identifier yet.
pub open spec fn identity_at(row: Seq<CellView>, column: Seq<char>) -> Result<
    Option<Id>,
    MappingError,
> {
    match lookup(row, column) {
        None => Ok(None),
        Some(SqlValueView::Null) => Ok(None),
        Some(SqlValueView::Integer(v)) => Ok(Some(Id(v))),
        Some(_) => Err(MappingError::WrongType),
    }
}

/// A row handed over by a relational backend: its cells in column order.
#[derive(Debug)]
pub struct Row {
    cells: Vec<ColumnValuePair>,
}

impl View for Row {
    type V = Seq<CellView>;

    closed spec fn view(&self) -> Seq<CellView> {
        cells_view(self.cells@)
    }
}

impl Row {
    pub fn new(cells: Vec<ColumnValuePair>) -> (row: Row)
        ensures
            row@ == cells_view(cells@),
    {
        Row { cells }
    }

    /// Number of cells.
    pub fn len(&self) -> (n: usize)
        ensures
            n == self@.len(),
    {
        self.cells.len()
    }

    /// The value under a column name: that of the last cell of that name.
    pub fn get(&self, column: &str) -> (value: Option<&SqlValue>)
        ensures
            match value {
                Some(v) => lookup(self@, column@) == Some(v@),
                None => lookup(self@, column@) is None,
            },
    {
        let mut i: usize = self.cells.len();
        assert(self@.take(i as int) == self@);
        while i > 0
            invariant
                i <= self.cells@.len(),
                self@ == cells_view(self.cells@),
                lookup(self@, column@) == lookup(self@.take(i as int), column@),
            decreases i,
        {
            i -= 1;
            let cell = &self.cells[i];
            proof {
                let upto = self@.take(i + 1);
                assert(upto.last() == cell@);
                assert(upto.drop_last() == self@.take(i as int));
            }
            if same_text(cell.column(), column) {
                return Some(cell.value());
            }
        }
        None
    }

    /// Reads a character field.
    pub fn text(&self, column: &str) -> (r: Result<String, MappingError>)
        ensures
            match r {
                Ok(s) => text_at(self@, column@) == Ok::<Seq<char>, MappingError>(s@),
                Err(e) => text_at(self@, column@) == Err::<Seq<char>, MappingError>(e),
            },
    {
        match self.get(column) {
            None => Err(MappingError::MissingColumn),
            Some(SqlValue::Text(s)) => Ok(s.clone()),
            Some(_) => Err(MappingError::WrongType),
        }
    }

    /// Reads a 32-bit integer field.
    pub fn integer(&self, column: &str) -> (r: Result<i32, MappingError>)
        ensures
            r == integer_at(self@, column@),
    {
        match self.get(column) {
            None => Err(MappingError::MissingColumn),
            Some(SqlValue::Integer(v)) => Ok(*v),
            Some(_) => Err(MappingError::WrongType),
        }
    }

    /// Reads the identifier a reference field points at.
    pub fn reference(&self, column: &str) -> (r: Result<Id, MappingError>)
        ensures
            r == reference_at(self@, column@),
    {
        match self.integer(column) {
            Ok(v) => Ok(Id(v)),
            Err(e) => Err(e),
        }
    }

    /// Reads an optional 64-bit integer field.
    pub fn nullable_big(&self, column: &str) -> (r: Result<Option<i64>, MappingError>)
        ensures
            r == nullable_big_at(self@, column@),
    {
        match self.get(column) {
            None => Err(MappingError::MissingColumn),
            Some(SqlValue::BigInt(v)) => Ok(Some(*v)),
            Some(SqlValue::Null) => Ok(None),
            Some(_) => Err(MappingError::WrongType),
        }
    }

    /// Reads the identity field.
    pub fn identity(&self, column: &str) -> (r: Result<Option<Id>, MappingError>)
        ensures
            r == identity_at(self@, column@),
    {
        match self.get(column) {
            None => Ok(None),
            Some(SqlValue::Null) => Ok(None),
            Some(SqlValue::Integer(v)) => Ok(Some(Id(*v))),
            Some(_) => Err(MappingError::WrongType),
        }
    }
}

/// Looking a column up in a row that ends with a cell of that name gives the
/// value of that cell; a last cell of another name is passed over.
pub proof fn lemma_lookup_push(row: Seq<CellView>, cell: CellView, column: Seq<char>)
    ensures
        lookup(row.push(cell), column) == if cell.column == column {
            Some(cell.value)
        } else {
            lookup(row, column)
        },
{
    assert(row.push(cell).drop_last() == row);
}

/// Whether a row holds every one of `cells`: under the name of each, its value.
/// In which order the columns of the row stand, and what else the row holds,
/// does not matter.
pub open spec fn holds_cells(row: Seq<CellView>, cells: Seq<CellView>) -> bool {
    forall|i: int|
        0 <= i < cells.len() ==> lookup(row, (#[trigger] cells[i]).column) == Some(cells[i].value)
}

/// Contract of an entity that is stored as one row of a table: it flattens into
/// the cells of its fields other than the identity, and is hydrated from a row
/// by column name.
pub trait Table: crate::id::HasId + View {
    /// The cells of the fields other than the identity, in declaration order.
    spec fn cells(&self) -> Seq<CellView>;

    /// The column the identity is read from.
    spec fn identity_column() -> Seq<char>;

    /// What a row hydrates to.
    spec fn hydrated(row: Seq<CellView>) -> Result<Self::V, MappingError>;

    /// A row that holds the cells an entity flattens into hydrates to that
    /// entity, whatever the order of its columns: every field but the identity
    /// comes back as it was, and the identity is the one the row holds. Only
    /// an identity column of another type than an identifier's makes such a
    /// row unreadable.
    proof fn lemma_hydrate_restores(&self, row: Seq<CellView>)
        requires
            holds_cells(row, self.cells()),
        ensures
            match identity_at(row, Self::identity_column()) {
                Err(e) => Self::hydrated(row) == Err::<Self::V, MappingError>(e),
                Ok(identity) => {
                    &&& Self::hydrated(row) is Ok
                    &&& identity matches Some(id) ==> Self::hydrated(row) == Ok::<
                        Self::V,
                        MappingError,
                    >(self.with_id(id)@)
                    &&& forall|back: Self|
                        Self::hydrated(row) == Ok::<Self::V, MappingError>(#[trigger] back@)
                            ==> back.cells() == self.cells() && back.id_view() == identity
                },
            },
    ;

    /// Flattens the entity into its cells, the identity left out.
    fn flatten(&self) -> (cells: Vec<ColumnValuePair>)
        ensures
            cells_view(cells@) == self.cells(),
    ;

    /// Hydrates an entity from a row.
    fn hydrate(row: &Row) -> (r: Result<Self, MappingError>)
        ensures
            match r {
                Ok(entity) => Self::hydrated(row@) == Ok::<Self::V, MappingError>(entity@),
                Err(e) => Self::hydrated(row@) == Err::<Self::V, MappingError>(e),
            },
    ;
}

} // verus!
