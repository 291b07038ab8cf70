//! Data products: one stored asset of one satellite and instrument pairing.

use crate::id::{HasId, Id, Reference};
use crate::mapping::directive::{declares, Declared, DeriveInput, FieldDecl, TypeShape};
use crate::mapping::row::{
    cells_view, identity_at, lemma_lookup_push, reference_at, text_at, CellView, ColumnValuePair,
    MappingError, Row, SqlValue, SqlValueView, Table,
};
use crate::model::satellite_instrument::SatelliteInstrument;
use crate::mapping::table::{declared_columns, declared_identity, declared_names};
use crate::sql::columns_of;
use crate::repository::Entity;
use vstd::prelude::*;

verus! {

/// A data product tied to one satellite and instrument pairing.
#[derive(Debug)]
pub struct InstrumentData {
    id: Option<Id>,
    satellite_instrument_id: Reference<SatelliteInstrument>,
    path: String,
}

/// Mathematical value of an [`InstrumentData`].
pub struct InstrumentDataView {
    pub id: Option<Id>,
    pub satellite_instrument_id: Id,
    pub path: Seq<char>,
}

impl View for InstrumentData {
    type V = InstrumentDataView;

    closed spec fn view(&self) -> InstrumentDataView {
        InstrumentDataView {
            id: self.id,
            satellite_instrument_id: self.satellite_instrument_id.target(),
            path: self.path@,
        }
    }
}

impl InstrumentDataView {
    /// The cells of a data product: the pairing it belongs to and its path.
    pub open spec fn cells(self) -> Seq<CellView> {
        seq![
            CellView {
                column: "satellite_instrument_id"@,
                value: SqlValueView::Integer(self.satellite_instrument_id.0),
            },
            CellView { column: "path"@, value: SqlValueView::Text(self.path) },
        ]
    }

    /// The data product a row holds.
    pub open spec fn hydrated(row: Seq<CellView>) -> Result<InstrumentDataView, MappingError> {
        match identity_at(row, "id"@) {
            Err(e) => Err(e),
            Ok(id) => match reference_at(row, "satellite_instrument_id"@) {
                Err(e) => Err(e),
                Ok(satellite_instrument_id) => match text_at(row, "path"@) {
                    Err(e) => Err(e),
                    Ok(path) => Ok(InstrumentDataView { id, satellite_instrument_id, path }),
                },
            },
        }
    }
}

impl InstrumentData {
    /// The fields of a data product with their directives, in declaration order.
    pub open spec fn declared() -> Seq<Declared> {
        seq![
            Declared { name: "id"@, directives: seq!["id"@, "none"@] },
            Declared { name: "satellite_instrument_id"@, directives: Seq::empty() },
            Declared { name: "path"@, directives: Seq::empty() },
        ]
    }

    /// The declaration that the mapping of a data product follows.
    pub fn declaration() -> (input: DeriveInput)
        ensures
            declares(input, "InstrumentData"@, Self::declared()),
    {
        let mut fields: Vec<FieldDecl> = Vec::new();
        fields.push(
            FieldDecl::named("id", TypeShape::applied("Option", TypeShape::plain("Id")))
                .with("id")
                .with("none"),
        );
        fields.push(
            FieldDecl::named(
                "satellite_instrument_id",
                TypeShape::applied("Reference", TypeShape::plain("SatelliteInstrument")),
            ),
        );
        fields.push(FieldDecl::named("path", TypeShape::plain("String")));
        proof {
            assert(Seq::<Seq<char>>::empty().push("id"@).push("none"@) =~= seq!["id"@, "none"@]);
        }
        DeriveInput::Struct { name: String::from_str("InstrumentData"), fields }
    }

    /// What is planned for the declaration is what the mapping does: it reads
    /// every field by its name, takes `id` as the identity and flattens the
    /// other fields into the columns of their names.
    pub proof fn lemma_mapping_follows_declaration(v: InstrumentDataView)
        ensures
            declared_names(Self::declared()) == seq!["id"@, "satellite_instrument_id"@, "path"@],
            declared_identity(Self::declared()) == Some("id"@),
            declared_columns(Self::declared()) == columns_of(v.cells()),
    {
        reveal_with_fuel(declared_columns, 4);
        reveal_with_fuel(declared_identity, 4);
        let declared = Self::declared();
        let identity = declared.drop_last().drop_last();
        assert(identity.drop_last() =~= Seq::<Declared>::empty());
        assert(identity.last().directives[0] == "id"@);
        assert(declared_columns(declared) =~= columns_of(v.cells()));
        assert(declared_names(declared) =~= seq!["id"@, "satellite_instrument_id"@, "path"@]);
    }

    pub fn new(satellite_instrument_id: Id, path: String) -> (r: Self)
        ensures
            r@ == (InstrumentDataView { id: None, satellite_instrument_id, path: path@ }),
    {
        Self { id: None, satellite_instrument_id: Reference::new(satellite_instrument_id), path }
    }

    pub fn get_satellite_instrument_id(&self) -> (r: Reference<SatelliteInstrument>)
        ensures
            r.target() == self@.satellite_instrument_id,
    {
        self.satellite_instrument_id
    }

    pub fn set_satellite_instrument_id(
        &mut self,
        satellite_instrument_id: Reference<SatelliteInstrument>,
    )
        ensures
            final(self)@ == (InstrumentDataView {
                satellite_instrument_id: satellite_instrument_id.target(),
                ..old(self)@
            }),
    {
        self.satellite_instrument_id = satellite_instrument_id;
    }

    pub fn get_path(&self) -> (path: &String)
        ensures
            path@ == self@.path,
    {
        &self.path
    }

    pub fn set_path(&mut self, path: String)
        ensures
            final(self)@ == (InstrumentDataView { path: path@, ..old(self)@ }),
    {
        self.path = path;
    }

    /// Carrying an identifier changes nothing but the identifier.
    pub proof fn lemma_with_id_view(self, id: Id)
        ensures
            self.with_id(id)@ == (InstrumentDataView { id: Some(id), ..self@ }),
    {
    }

    /// The identifier a data product carries is the one in its value.
    pub proof fn lemma_id_view(self)
        ensures
            self.id_view() == self@.id,
    {
    }
}

impl Clone for InstrumentData {
    fn clone(&self) -> (r: Self)
        ensures
            r == *self,
    {
        Self {
            id: self.id,
            satellite_instrument_id: self.satellite_instrument_id,
            path: self.path.clone(),
        }
    }
}

impl Entity for InstrumentData {
    proof fn lemma_copy_is_equal(original: Self, copy: Self) {
    }
}

impl HasId for InstrumentData {
    closed spec fn id_view(&self) -> Option<Id> {
        self.id
    }

    closed spec fn with_id(self, id: Id) -> Self {
        InstrumentData { id: Some(id), ..self }
    }

    proof fn lemma_with_id_carries(x: Self, id: Id) {
    }

    proof fn lemma_with_id_same(x: Self, id: Id) {
    }

    fn get_id(&self) -> (id: Option<Id>) {
        self.id
    }

    fn set_id(&mut self, id: Id) {
        self.id = Some(id);
    }
}

impl Table for InstrumentData {
    open spec fn cells(&self) -> Seq<CellView> {
        self@.cells()
    }

    open spec fn identity_column() -> Seq<char> {
        "id"@
    }

    open spec fn hydrated(row: Seq<CellView>) -> Result<InstrumentDataView, MappingError> {
        InstrumentDataView::hydrated(row)
    }

    proof fn lemma_hydrate_restores(&self, row: Seq<CellView>) {
        let cells = self.cells();
        assert(cells[0].column == "satellite_instrument_id"@);
        assert(cells[1].column == "path"@);
    }

    fn flatten(&self) -> (cells: Vec<ColumnValuePair>) {
        let mut cells: Vec<ColumnValuePair> = Vec::new();
        cells.push(
            ColumnValuePair::new(
                "satellite_instrument_id",
                SqlValue::Integer(self.satellite_instrument_id.id().value()),
            ),
        );
        cells.push(ColumnValuePair::new("path", SqlValue::Text(self.path.clone())));
        assert(cells_view(cells@) == self@.cells());
        cells
    }

    fn hydrate(row: &Row) -> (r: Result<Self, MappingError>) {
        let id = match row.identity("id") {
            Err(e) => {
                return Err(e);
            },
            Ok(id) => id,
        };
        let satellite_instrument_id = match row.reference("satellite_instrument_id") {
            Err(e) => {
                return Err(e);
            },
            Ok(target) => target,
        };
        let path = match row.text("path") {
            Err(e) => {
                return Err(e);
            },
            Ok(path) => path,
        };
        Ok(
            InstrumentData {
                id,
                satellite_instrument_id: Reference::new(satellite_instrument_id),
                path,
            },
        )
    }
}

/// Hydrating what a data product flattens into gives back every field but the
/// identity, which the cells do not hold.
pub proof fn lemma_hydrate_flatten(v: InstrumentDataView)
    ensures
        InstrumentDataView::hydrated(v.cells()) == Ok::<InstrumentDataView, MappingError>(
            InstrumentDataView { id: None, ..v },
        ),
{
    reveal_strlit("id");
    reveal_strlit("satellite_instrument_id");
    reveal_strlit("path");
    let empty = Seq::<CellView>::empty();
    let first = CellView {
        column: "satellite_instrument_id"@,
        value: SqlValueView::Integer(v.satellite_instrument_id.0),
    };
    let second = CellView { column: "path"@, value: SqlValueView::Text(v.path) };
    assert(v.cells() == empty.push(first).push(second));
    assert("id"@.len() != "satellite_instrument_id"@.len());
    assert("id"@.len() != "path"@.len());
    assert("satellite_instrument_id"@.len() != "path"@.len());
    lemma_lookup_push(empty, first, "id"@);
    lemma_lookup_push(empty.push(first), second, "id"@);
    lemma_lookup_push(empty, first, "satellite_instrument_id"@);
    lemma_lookup_push(empty.push(first), second, "satellite_instrument_id"@);
    lemma_lookup_push(empty.push(first), second, "path"@);
}

} // verus!
