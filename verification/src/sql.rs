//! Statements for a relational backend, built from the ordered cells that the
//! mapping layer flattens an entity into. Values never stand in the text of a
//! statement: they are passed as numbered parameters.

use crate::id::{HasId, Id};
use crate::mapping::row::{cells_view, CellView, ColumnValuePair, SqlValue, SqlValueView, Table};
use crate::repository::RepositoryError;
use crate::text::{decimal, decimal_string, join, joined, views_of};
use vstd::prelude::*;

verus! {

/// The placeholder of the parameter with a given number, counted from 1.
pub open spec fn placeholder(number: nat) -> Seq<char> {
    "$"@ + decimal(number)
}

/// The placeholders of the first `count` parameters.
pub open spec fn placeholders(count: nat) -> Seq<Seq<char>> {
    Seq::new(count, |i: int| placeholder((i + 1) as nat))
}

/// The column names of cells, in their order.
pub open spec fn columns_of(cells: Seq<CellView>) -> Seq<Seq<char>> {
    Seq::new(cells.len(), |i: int| cells[i].column)
}

/// The values of cells, in their order.
pub open spec fn values_of(cells: Seq<CellView>) -> Seq<SqlValueView> {
    Seq::new(cells.len(), |i: int| cells[i].value)
}

/// One assignment per column, each to the placeholder of its position.
pub open spec fn assignments(columns: Seq<Seq<char>>) -> Seq<Seq<char>> {
    Seq::new(columns.len(), |i: int| columns[i] + " = "@ + placeholder((i + 1) as nat))
}

/// Text of the statement that reads one row by identifier.
pub open spec fn select_text(table: Seq<char>) -> Seq<char> {
    "SELECT * FROM "@ + table + " WHERE id = $1 LIMIT 1"@
}

/// Text of the statement that reads all rows.
pub open spec fn select_all_text(table: Seq<char>) -> Seq<char> {
    "SELECT * FROM "@ + table
}

/// Text of the statement that inserts a row and asks for its identifier.
pub open spec fn insert_text(table: Seq<char>, columns: Seq<Seq<char>>) -> Seq<char> {
    "INSERT INTO "@ + table + " ("@ + joined(columns, ", "@) + ") VALUES ("@ + joined(
        placeholders(columns.len()),
        ", "@,
    ) + ") RETURNING id"@
}

/// Text of the statement that replaces the columns of the row with a given
/// identifier; the identifier is the parameter after those of the columns.
pub open spec fn update_text(table: Seq<char>, columns: Seq<Seq<char>>) -> Seq<char> {
    "UPDATE "@ + table + " SET "@ + joined(assignments(columns), ", "@) + " WHERE id = "@
        + placeholder(columns.len() + 1)
}

/// Text of the statement that deletes the row with a given identifier.
pub open spec fn delete_text(table: Seq<char>) -> Seq<char> {
    "DELETE FROM "@ + table + " WHERE id = $1"@
}

/// A statement with the values of its parameters, in the order of their
/// numbers.
#[derive(Debug)]
pub struct Statement {
    pub text: String,
    pub params: Vec<SqlValue>,
}

/// The views of a sequence of values.
pub open spec fn params_view(params: Seq<SqlValue>) -> Seq<SqlValueView> {
    Seq::new(params.len(), |i: int| params[i]@)
}

fn placeholder_text(number: usize) -> (text: String)
    ensures
        text@ == placeholder(number as nat),
{
    String::from_str("$").concat(decimal_string(number as u64).as_str())
}

fn values(cells: &Vec<ColumnValuePair>) -> (params: Vec<SqlValue>)
    ensures
        params_view(params@) == values_of(cells_view(cells@)),
{
    let mut params: Vec<SqlValue> = Vec::new();
    let mut i: usize = 0;
    while i < cells.len()
        invariant
            i <= cells@.len(),
            params@.len() == i,
            forall|k: int| 0 <= k < i ==> (#[trigger] params@[k])@ == cells@[k]@.value,
        decreases cells@.len() - i,
    {
        params.push(cells[i].value().clone());
        i += 1;
    }
    assert(params_view(params@) =~= values_of(cells_view(cells@)));
    params
}

/// The statements of one table.
#[derive(Debug)]
pub struct Statements {
    table: String,
}

impl Statements {
    /// The table the statements are for.
    pub closed spec fn table(&self) -> Seq<char> {
        self.table@
    }

    pub fn new(table: &str) -> (statements: Self)
        ensures
            statements.table() == table@,
    {
        Self { table: String::from_str(table) }
    }

    /// Reads the row with identifier `id`.
    pub fn get(&self, id: Id) -> (statement: Statement)
        ensures
            statement.text@ == select_text(self.table()),
            params_view(statement.params@) == seq![SqlValueView::Integer(id.0)],
    {
        let text = String::from_str("SELECT * FROM ").concat(self.table.as_str()).concat(
            " WHERE id = $1 LIMIT 1",
        );
        let mut params: Vec<SqlValue> = Vec::new();
        params.push(SqlValue::Integer(id.0));
        assert(params_view(params@) =~= seq![SqlValueView::Integer(id.0)]);
        Statement { text, params }
    }

    /// Reads all rows.
    pub fn get_all(&self) -> (statement: Statement)
        ensures
            statement.text@ == select_all_text(self.table()),
            statement.params@.len() == 0,
    {
        let text = String::from_str("SELECT * FROM ").concat(self.table.as_str());
        Statement { text, params: Vec::new() }
    }

    /// Inserts a row of the given cells and asks for the identifier it is
    /// stored under.
    pub fn add(&self, cells: &Vec<ColumnValuePair>) -> (statement: Statement)
        ensures
            statement.text@ == insert_text(self.table(), columns_of(cells_view(cells@))),
            params_view(statement.params@) == values_of(cells_view(cells@)),
    {
        let mut columns: Vec<String> = Vec::new();
        let mut marks: Vec<String> = Vec::new();
        let mut i: usize = 0;
        while i < cells.len()
            invariant
                i <= cells@.len(),
                columns@.len() == i,
                marks@.len() == i,
                forall|k: int| 0 <= k < i ==> (#[trigger] columns@[k])@ == cells@[k]@.column,
                forall|k: int|
                    0 <= k < i ==> (#[trigger] marks@[k])@ == placeholder((k + 1) as nat),
            decreases cells@.len() - i,
        {
            columns.push(String::from_str(cells[i].column()));
            marks.push(placeholder_text(i + 1));
            i += 1;
        }
        proof {
            assert(views_of(columns@) =~= columns_of(cells_view(cells@)));
            assert(views_of(marks@) =~= placeholders(cells@.len()));
        }
        let text = String::from_str("INSERT INTO ").concat(self.table.as_str()).concat(" (").concat(
            join(&columns, ", ").as_str(),
        ).concat(") VALUES (").concat(join(&marks, ", ").as_str()).concat(") RETURNING id");
        Statement { text, params: values(cells) }
    }

    /// Replaces the cells of the row with identifier `id`.
    pub fn update(&self, cells: &Vec<ColumnValuePair>, id: Id) -> (statement: Statement)
        requires
            cells@.len() < usize::MAX,
        ensures
            statement.text@ == update_text(self.table(), columns_of(cells_view(cells@))),
            params_view(statement.params@) == values_of(cells_view(cells@)).push(
                SqlValueView::Integer(id.0),
            ),
    {
        let mut sets: Vec<String> = Vec::new();
        let mut i: usize = 0;
        while i < cells.len()
            invariant
                i <= cells@.len(),
                sets@.len() == i,
                forall|k: int|
                    0 <= k < i ==> (#[trigger] sets@[k])@ == cells@[k]@.column + " = "@
                        + placeholder((k + 1) as nat),
            decreases cells@.len() - i,
        {
            let set = String::from_str(cells[i].column()).concat(" = ").concat(
                placeholder_text(i + 1).as_str(),
            );
            sets.push(set);
            i += 1;
        }
        proof {
            assert(views_of(sets@) =~= assignments(columns_of(cells_view(cells@))));
        }
        let text = String::from_str("UPDATE ").concat(self.table.as_str()).concat(" SET ").concat(
            join(&sets, ", ").as_str(),
        ).concat(" WHERE id = ").concat(placeholder_text(cells.len() + 1).as_str());
        let mut params = values(cells);
        let ghost before = params@;
        params.push(SqlValue::Integer(id.0));
        assert(params_view(params@) =~= params_view(before).push(SqlValueView::Integer(id.0)));
        Statement { text, params }
    }

    /// Replaces the row of a stored entity by what the entity flattens into.
    /// An entity without identifier has no row and is refused; so is one with
    /// more cells than parameters can be numbered.
    pub fn update_of<T: Table>(&self, entity: &T) -> (r: Result<Statement, RepositoryError>)
        ensures
            match entity.id_view() {
                None => r matches Err(RepositoryError::MissingId),
                Some(id) => if entity.cells().len() < usize::MAX {
                    &&& r matches Ok(statement)
                    &&& statement.text@ == update_text(self.table(), columns_of(entity.cells()))
                    &&& params_view(statement.params@) == values_of(entity.cells()).push(
                        SqlValueView::Integer(id.0),
                    )
                } else {
                    r matches Err(RepositoryError::BackendFailure)
                },
            },
    {
        let id = match entity.get_id() {
            Some(id) => id,
            None => {
                return Err(RepositoryError::MissingId);
            },
        };
        let cells = entity.flatten();
        if cells.len() == usize::MAX {
            return Err(RepositoryError::BackendFailure);
        }
        Ok(self.update(&cells, id))
    }

    /// Deletes the row with identifier `id`.
    pub fn delete(&self, id: Id) -> (statement: Statement)
        ensures
            statement.text@ == delete_text(self.table()),
            params_view(statement.params@) == seq![SqlValueView::Integer(id.0)],
    {
        let text = String::from_str("DELETE FROM ").concat(self.table.as_str()).concat(
            " WHERE id = $1",
        );
        let mut params: Vec<SqlValue> = Vec::new();
        params.push(SqlValue::Integer(id.0));
        assert(params_view(params@) =~= seq![SqlValueView::Integer(id.0)]);
        Statement { text, params }
    }
}

/// The statements that create the tables, each only where it is missing, in an
/// order in which every table exists before it is referred to.
pub fn schema_statements() -> (statements: Vec<&'static str>)
    ensures
        statements@.len() == 5,
        statements@[0]@
            == "CREATE TABLE IF NOT EXISTS satellite (id SERIAL PRIMARY KEY, name VARCHAR NOT NULL, catnr BIGINT, tle1 VARCHAR NOT NULL, tle2 VARCHAR NOT NULL);"@,
        statements@[1]@
            == "CREATE TABLE IF NOT EXISTS instrument (id SERIAL PRIMARY KEY, name VARCHAR NOT NULL);"@,
        statements@[2]@
            == "CREATE TABLE IF NOT EXISTS satellite_instrument (id SERIAL PRIMARY KEY, satellite_id INTEGER NOT NULL REFERENCES satellite, instrument_id INTEGER NOT NULL REFERENCES instrument);"@,
        statements@[3]@
            == "CREATE TABLE IF NOT EXISTS ocean_color_mapping (id SERIAL PRIMARY KEY, satellite_instrument_id INTEGER NOT NULL REFERENCES satellite_instrument, sensor_id INTEGER NOT NULL, data_id INTEGER NOT NULL);"@,
        statements@[4]@
            == "CREATE TABLE IF NOT EXISTS instrument_data (id SERIAL PRIMARY KEY, satellite_instrument_id INTEGER NOT NULL REFERENCES satellite_instrument, path VARCHAR NOT NULL);"@,
{
    let mut statements: Vec<&'static str> = Vec::new();
    statements.push(
        "CREATE TABLE IF NOT EXISTS satellite (id SERIAL PRIMARY KEY, name VARCHAR NOT NULL, catnr BIGINT, tle1 VARCHAR NOT NULL, tle2 VARCHAR NOT NULL);",
    );
    statements.push(
        "CREATE TABLE IF NOT EXISTS instrument (id SERIAL PRIMARY KEY, name VARCHAR NOT NULL);",
    );
    statements.push(
        "CREATE TABLE IF NOT EXISTS satellite_instrument (id SERIAL PRIMARY KEY, satellite_id INTEGER NOT NULL REFERENCES satellite, instrument_id INTEGER NOT NULL REFERENCES instrument);",
    );
    statements.push(
        "CREATE TABLE IF NOT EXISTS ocean_color_mapping (id SERIAL PRIMARY KEY, satellite_instrument_id INTEGER NOT NULL REFERENCES satellite_instrument, sensor_id INTEGER NOT NULL, data_id INTEGER NOT NULL);",
    );
    statements.push(
        "CREATE TABLE IF NOT EXISTS instrument_data (id SERIAL PRIMARY KEY, satellite_instrument_id INTEGER NOT NULL REFERENCES satellite_instrument, path VARCHAR NOT NULL);",
    );
    statements
}

} // verus!
