//! Satellites.

use crate::celestrak::{catalog_number, TleError, TLE};
use crate::id::{HasId, Id};
use crate::mapping::directive::{declares, Declared, DeriveInput, FieldDecl, TypeShape};
use crate::mapping::row::{
    cells_view, identity_at, lemma_lookup_push, nullable_big_at, text_at, CellView,
    ColumnValuePair, MappingError, Row, SqlValue, SqlValueView, Table,
};
use crate::mapping::table::{declared_columns, declared_identity, declared_names};
use crate::sql::columns_of;
use crate::repository::Entity;
use vstd::prelude::*;

verus! {

/// A satellite with its latest orbital elements.
#[derive(Debug)]
pub struct Satellite {
    id: Option<Id>,
    name: String,
    /// Satellite catalog number.
    catnr: Option<i64>,
    tle1: String,
    tle2: String,
}

/// Mathematical value of a [`Satellite`].
pub struct SatelliteView {
    pub id: Option<Id>,
    pub name: Seq<char>,
    pub catnr: Option<i64>,
    pub tle1: Seq<char>,
    pub tle2: Seq<char>,
}

impl View for Satellite {
    type V = SatelliteView;

    closed spec fn view(&self) -> SatelliteView {
        SatelliteView {
            id: self.id,
            name: self.name@,
            catnr: self.catnr,
            tle1: self.tle1@,
            tle2: self.tle2@,
        }
    }
}

/// The cell an optional 64-bit integer is stored in.
pub open spec fn nullable_big(value: Option<i64>) -> SqlValueView {
    match value {
        Some(v) => SqlValueView::BigInt(v),
        None => SqlValueView::Null,
    }
}

impl SatelliteView {
    /// The cells of a satellite: name, catalog number and the two element
    /// lines.
    pub open spec fn cells(self) -> Seq<CellView> {
        seq![
            CellView { column: "name"@, value: SqlValueView::Text(self.name) },
            CellView { column: "catnr"@, value: nullable_big(self.catnr) },
            CellView { column: "tle1"@, value: SqlValueView::Text(self.tle1) },
            CellView { column: "tle2"@, value: SqlValueView::Text(self.tle2) },
        ]
    }

    /// The satellite a row holds.
    pub open spec fn hydrated(row: Seq<CellView>) -> Result<SatelliteView, MappingError> {
        match identity_at(row, "id"@) {
            Err(e) => Err(e),
            Ok(id) => match text_at(row, "name"@) {
                Err(e) => Err(e),
                Ok(name) => match nullable_big_at(row, "catnr"@) {
                    Err(e) => Err(e),
                    Ok(catnr) => match text_at(row, "tle1"@) {
                        Err(e) => Err(e),
                        Ok(tle1) => match text_at(row, "tle2"@) {
                            Err(e) => Err(e),
                            Ok(tle2) => Ok(SatelliteView { id, name, catnr, tle1, tle2 }),
                        },
                    },
                },
            },
        }
    }
}

impl Satellite {
    /// The fields of a satellite with their directives, in declaration order.
    pub open spec fn declared() -> Seq<Declared> {
        seq![
            Declared { name: "id"@, directives: seq!["id"@] },
            Declared { name: "name"@, directives: Seq::empty() },
            Declared { name: "catnr"@, directives: Seq::empty() },
            Declared { name: "tle1"@, directives: Seq::empty() },
            Declared { name: "tle2"@, directives: Seq::empty() },
        ]
    }

    /// The declaration that the mapping of a satellite follows.
    pub fn declaration() -> (input: DeriveInput)
        ensures
            declares(input, "Satellite"@, Self::declared()),
    {
        let mut fields: Vec<FieldDecl> = Vec::new();
        fields.push(
            FieldDecl::named("id", TypeShape::applied("Option", TypeShape::plain("Id")))
                .with("id"),
        );
        fields.push(FieldDecl::named("name", TypeShape::plain("String")));
        fields.push(
            FieldDecl::named("catnr", TypeShape::applied("Option", TypeShape::plain("i64"))),
        );
        fields.push(FieldDecl::named("tle1", TypeShape::plain("String")));
        fields.push(FieldDecl::named("tle2", TypeShape::plain("String")));
        proof {
            assert(Seq::<Seq<char>>::empty().push("id"@) =~= seq!["id"@]);
        }
        DeriveInput::Struct { name: String::from_str("Satellite"), fields }
    }

    /// What is planned for the declaration is what the mapping does: it reads
    /// every field by its name, takes `id` as the identity and flattens the
    /// other fields into the columns of their names.
    pub proof fn lemma_mapping_follows_declaration(v: SatelliteView)
        ensures
            declared_names(Self::declared()) == seq!["id"@, "name"@, "catnr"@, "tle1"@, "tle2"@],
            declared_identity(Self::declared()) == Some("id"@),
            declared_columns(Self::declared()) == columns_of(v.cells()),
    {
        reveal_with_fuel(declared_columns, 6);
        reveal_with_fuel(declared_identity, 6);
        let declared = Self::declared();
        let identity = declared.drop_last().drop_last().drop_last().drop_last();
        assert(identity.drop_last() =~= Seq::<Declared>::empty());
        assert(identity.last().directives[0] == "id"@);
        assert(declared_columns(declared) =~= columns_of(v.cells()));
        assert(declared_names(declared) =~= seq!["id"@, "name"@, "catnr"@, "tle1"@, "tle2"@]);
    }

    /// A satellite that is not stored yet, from its name and element lines.
    /// The catalog number is read from the first element line.
    pub fn new(name: &str, tle1: &str, tle2: &str) -> (r: Result<Self, TleError>)
        ensures
            match r {
                Ok(satellite) => catalog_number(tle1@) matches Some(catnr) && satellite@ == (
                SatelliteView {
                    id: None,
                    name: name@,
                    catnr: Some(catnr as i64),
                    tle1: tle1@,
                    tle2: tle2@,
                }),
                Err(e) => e == TleError::BadCatalogNumber && catalog_number(tle1@) is None,
            },
    {
        Satellite::try_from(TLE::new(name, tle1, tle2))
    }

    /// A satellite that is not stored yet, from an element set.
    pub fn try_from(tle: TLE) -> (r: Result<Self, TleError>)
        ensures
            match r {
                Ok(satellite) => catalog_number(tle@.tle1) matches Some(catnr) && satellite@ == (
                SatelliteView {
                    id: None,
                    name: tle@.name,
                    catnr: Some(catnr as i64),
                    tle1: tle@.tle1,
                    tle2: tle@.tle2,
                }),
                Err(e) => e == TleError::BadCatalogNumber && catalog_number(tle@.tle1) is None,
            },
    {
        let catnr = match tle.get_catnr() {
            Err(e) => {
                return Err(e);
            },
            Ok(catnr) => catnr,
        };
        Ok(
            Self {
                id: None,
                name: tle.name,
                catnr: Some(catnr as i64),
                tle1: tle.tle1,
                tle2: tle.tle2,
            },
        )
    }

    pub fn get_name(&self) -> (name: &String)
        ensures
            name@ == self@.name,
    {
        &self.name
    }

    pub fn set_name(&mut self, name: String)
        ensures
            final(self)@ == (SatelliteView { name: name@, ..old(self)@ }),
    {
        self.name = name;
    }

    pub fn get_catnr(&self) -> (catnr: Option<i64>)
        ensures
            catnr == self@.catnr,
    {
        self.catnr
    }

    pub fn set_catnr(&mut self, catnr: Option<i64>)
        ensures
            final(self)@ == (SatelliteView { catnr, ..old(self)@ }),
    {
        self.catnr = catnr;
    }

    pub fn get_tle1(&self) -> (tle1: &String)
        ensures
            tle1@ == self@.tle1,
    {
        &self.tle1
    }

    pub fn set_tle1(&mut self, tle1: String)
        ensures
            final(self)@ == (SatelliteView { tle1: tle1@, ..old(self)@ }),
    {
        self.tle1 = tle1;
    }

    pub fn get_tle2(&self) -> (tle2: &String)
        ensures
            tle2@ == self@.tle2,
    {
        &self.tle2
    }

    pub fn set_tle2(&mut self, tle2: String)
        ensures
            final(self)@ == (SatelliteView { tle2: tle2@, ..old(self)@ }),
    {
        self.tle2 = tle2;
    }

    /// Carrying an identifier changes nothing but the identifier.
    pub proof fn lemma_with_id_view(self, id: Id)
        ensures
            self.with_id(id)@ == (SatelliteView { id: Some(id), ..self@ }),
    {
    }

    /// The identifier a satellite carries is the one in its value.
    pub proof fn lemma_id_view(self)
        ensures
            self.id_view() == self@.id,
    {
    }
}

impl Clone for Satellite {
    fn clone(&self) -> (r: Self)
        ensures
            r == *self,
    {
        Self {
            id: self.id,
            name: self.name.clone(),
            catnr: self.catnr,
            tle1: self.tle1.clone(),
            tle2: self.tle2.clone(),
        }
    }
}

impl Entity for Satellite {
    proof fn lemma_copy_is_equal(original: Self, copy: Self) {
    }
}

impl HasId for Satellite {
    closed spec fn id_view(&self) -> Option<Id> {
        self.id
    }

    closed spec fn with_id(self, id: Id) -> Self {
        Satellite { id: Some(id), ..self }
    }

    proof fn lemma_with_id_carries(x: Self, id: Id) {
    }

    proof fn lemma_with_id_same(x: Self, id: Id) {
    }

    fn get_id(&self) -> (id: Option<Id>) {
        self.id
    }

    fn set_id(&mut self, id: Id) {
        self.id = Some(id);
    }
}

impl Table for Satellite {
    open spec fn cells(&self) -> Seq<CellView> {
        self@.cells()
    }

    open spec fn identity_column() -> Seq<char> {
        "id"@
    }

    open spec fn hydrated(row: Seq<CellView>) -> Result<SatelliteView, MappingError> {
        SatelliteView::hydrated(row)
    }

    proof fn lemma_hydrate_restores(&self, row: Seq<CellView>) {
        let cells = self.cells();
        assert(cells[0].column == "name"@ && cells[1].column == "catnr"@);
        assert(cells[2].column == "tle1"@ && cells[3].column == "tle2"@);
    }

    fn flatten(&self) -> (cells: Vec<ColumnValuePair>) {
        let mut cells: Vec<ColumnValuePair> = Vec::new();
        cells.push(ColumnValuePair::new("name", SqlValue::Text(self.name.clone())));
        let catnr = match self.catnr {
            Some(v) => SqlValue::BigInt(v),
            None => SqlValue::Null,
        };
        cells.push(ColumnValuePair::new("catnr", catnr));
        cells.push(ColumnValuePair::new("tle1", SqlValue::Text(self.tle1.clone())));
        cells.push(ColumnValuePair::new("tle2", SqlValue::Text(self.tle2.clone())));
        assert(cells_view(cells@) == self@.cells());
        cells
    }

    fn hydrate(row: &Row) -> (r: Result<Self, MappingError>) {
        let id = match row.identity("id") {
            Err(e) => {
                return Err(e);
            },
            Ok(id) => id,
        };
        let name = match row.text("name") {
            Err(e) => {
                return Err(e);
            },
            Ok(name) => name,
        };
        let catnr = match row.nullable_big("catnr") {
            Err(e) => {
                return Err(e);
            },
            Ok(catnr) => catnr,
        };
        let tle1 = match row.text("tle1") {
            Err(e) => {
                return Err(e);
            },
            Ok(tle1) => tle1,
        };
        let tle2 = match row.text("tle2") {
            Err(e) => {
                return Err(e);
            },
            Ok(tle2) => tle2,
        };
        Ok(Satellite { id, name, catnr, tle1, tle2 })
    }
}

/// Hydrating what a satellite flattens into gives back every field but the
/// identity, which the cells do not hold.
pub proof fn lemma_hydrate_flatten(v: SatelliteView)
    ensures
        SatelliteView::hydrated(v.cells()) == Ok::<SatelliteView, MappingError>(
            SatelliteView { id: None, ..v },
        ),
{
    reveal_strlit("id");
    reveal_strlit("name");
    reveal_strlit("catnr");
    reveal_strlit("tle1");
    reveal_strlit("tle2");
    let empty = Seq::<CellView>::empty();
    let first = CellView { column: "name"@, value: SqlValueView::Text(v.name) };
    let second = CellView { column: "catnr"@, value: nullable_big(v.catnr) };
    let third = CellView { column: "tle1"@, value: SqlValueView::Text(v.tle1) };
    let fourth = CellView { column: "tle2"@, value: SqlValueView::Text(v.tle2) };
    let one = empty.push(first);
    let two = one.push(second);
    let three = two.push(third);
    assert(v.cells() == three.push(fourth));
    assert("id"@.len() == 2);
    assert("catnr"@.len() == 5);
    assert("name"@.len() == 4 && "name"@[0] == 'n');
    assert("tle1"@.len() == 4 && "tle1"@[0] == 't' && "tle1"@[3] == '1');
    assert("tle2"@.len() == 4 && "tle2"@[0] == 't' && "tle2"@[3] == '2');
    lemma_lookup_push(empty, first, "id"@);
    lemma_lookup_push(one, second, "id"@);
    lemma_lookup_push(two, third, "id"@);
    lemma_lookup_push(three, fourth, "id"@);
    lemma_lookup_push(empty, first, "name"@);
    lemma_lookup_push(one, second, "name"@);
    lemma_lookup_push(two, third, "name"@);
    lemma_lookup_push(three, fourth, "name"@);
    lemma_lookup_push(one, second, "catnr"@);
    lemma_lookup_push(two, third, "catnr"@);
    lemma_lookup_push(three, fourth, "catnr"@);
    lemma_lookup_push(two, third, "tle1"@);
    lemma_lookup_push(three, fourth, "tle1"@);
    lemma_lookup_push(three, fourth, "tle2"@);
}

} // verus!
