//! The pairing of a satellite with an instrument it carries.

use crate::id::{HasId, Id, Reference};
use crate::mapping::directive::{declares, Declared, DeriveInput, FieldDecl, TypeShape};
use crate::mapping::row::{
    cells_view, identity_at, lemma_lookup_push, reference_at, CellView, ColumnValuePair,
    MappingError, Row, SqlValue, SqlValueView, Table,
};
use crate::model::instrument::Instrument;
use crate::model::satellite::Satellite;
use crate::mapping::table::{declared_columns, declared_identity, declared_names};
use crate::sql::columns_of;
use crate::repository::Entity;
use vstd::prelude::*;

verus! {

/// Which instrument flies on which satellite.
#[derive(Debug)]
pub struct SatelliteInstrument {
    id: Option<Id>,
    satellite_id: Reference<Satellite>,
    instrument_id: Reference<Instrument>,
}

/// Mathematical value of a [`SatelliteInstrument`].
pub struct SatelliteInstrumentView {
    pub id: Option<Id>,
    pub satellite_id: Id,
    pub instrument_id: Id,
}

impl View for SatelliteInstrument {
    type V = SatelliteInstrumentView;

    closed spec fn view(&self) -> SatelliteInstrumentView {
        SatelliteInstrumentView {
            id: self.id,
            satellite_id: self.satellite_id.target(),
            instrument_id: self.instrument_id.target(),
        }
    }
}

impl SatelliteInstrumentView {
    /// The cells of a pairing: the two references, as integers.
    pub open spec fn cells(self) -> Seq<CellView> {
        seq![
            CellView { column: "satellite_id"@, value: SqlValueView::Integer(self.satellite_id.0) },
            CellView {
                column: "instrument_id"@,
                value: SqlValueView::Integer(self.instrument_id.0),
            },
        ]
    }

    /// The pairing a row holds.
    pub open spec fn hydrated(row: Seq<CellView>) -> Result<SatelliteInstrumentView, MappingError> {
        match identity_at(row, "id"@) {
            Err(e) => Err(e),
            Ok(id) => match reference_at(row, "satellite_id"@) {
                Err(e) => Err(e),
                Ok(satellite_id) => match reference_at(row, "instrument_id"@) {
                    Err(e) => Err(e),
                    Ok(instrument_id) => Ok(
                        SatelliteInstrumentView { id, satellite_id, instrument_id },
                    ),
                },
            },
        }
    }
}

impl SatelliteInstrument {
    /// The fields of a pairing with their directives, in declaration order.
    pub open spec fn declared() -> Seq<Declared> {
        seq![
            Declared { name: "id"@, directives: seq!["id"@, "none"@] },
            Declared { name: "satellite_id"@, directives: Seq::empty() },
            Declared { name: "instrument_id"@, directives: Seq::empty() },
        ]
    }

    /// The declaration that the mapping of a pairing follows.
    pub fn declaration() -> (input: DeriveInput)
        ensures
            declares(input, "SatelliteInstrument"@, Self::declared()),
    {
        let mut fields: Vec<FieldDecl> = Vec::new();
        fields.push(
            FieldDecl::named("id", TypeShape::applied("Option", TypeShape::plain("Id")))
                .with("id")
                .with("none"),
        );
        fields.push(
            FieldDecl::named(
                "satellite_id",
                TypeShape::applied("Reference", TypeShape::plain("Satellite")),
            ),
        );
        fields.push(
            FieldDecl::named(
                "instrument_id",
                TypeShape::applied("Reference", TypeShape::plain("Instrument")),
            ),
        );
        proof {
            assert(Seq::<Seq<char>>::empty().push("id"@).push("none"@) =~= seq!["id"@, "none"@]);
        }
        DeriveInput::Struct { name: String::from_str("SatelliteInstrument"), fields }
    }

    /// What is planned for the declaration is what the mapping does: it reads
    /// every field by its name, takes `id` as the identity and flattens the
    /// other fields into the columns of their names.
    pub proof fn lemma_mapping_follows_declaration(v: SatelliteInstrumentView)
        ensures
            declared_names(Self::declared()) == seq!["id"@, "satellite_id"@, "instrument_id"@],
            declared_identity(Self::declared()) == Some("id"@),
            declared_columns(Self::declared()) == columns_of(v.cells()),
    {
        reveal_with_fuel(declared_columns, 4);
        reveal_with_fuel(declared_identity, 4);
        let declared = Self::declared();
        let identity = declared.drop_last().drop_last();
        assert(identity.drop_last() =~= Seq::<Declared>::empty());
        assert(identity.last().directives[0] == "id"@);
        assert(declared_columns(declared) =~= columns_of(v.cells()));
        assert(declared_names(declared) =~= seq!["id"@, "satellite_id"@, "instrument_id"@]);
    }

    pub fn new(satellite_id: Id, instrument_id: Id) -> (r: Self)
        ensures
            r@ == (SatelliteInstrumentView { id: None, satellite_id, instrument_id }),
    {
        Self {
            id: None,
            satellite_id: Reference::new(satellite_id),
            instrument_id: Reference::new(instrument_id),
        }
    }

    pub fn get_satellite_id(&self) -> (r: Reference<Satellite>)
        ensures
            r.target() == self@.satellite_id,
    {
        self.satellite_id
    }

    pub fn set_satellite_id(&mut self, satellite_id: Reference<Satellite>)
        ensures
            final(self)@ == (SatelliteInstrumentView {
                satellite_id: satellite_id.target(),
                ..old(self)@
            }),
    {
        self.satellite_id = satellite_id;
    }

    pub fn get_instrument_id(&self) -> (r: Reference<Instrument>)
        ensures
            r.target() == self@.instrument_id,
    {
        self.instrument_id
    }

    pub fn set_instrument_id(&mut self, instrument_id: Reference<Instrument>)
        ensures
            final(self)@ == (SatelliteInstrumentView {
                instrument_id: instrument_id.target(),
                ..old(self)@
            }),
    {
        self.instrument_id = instrument_id;
    }

    /// Carrying an identifier changes nothing but the identifier.
    pub proof fn lemma_with_id_view(self, id: Id)
        ensures
            self.with_id(id)@ == (SatelliteInstrumentView { id: Some(id), ..self@ }),
    {
    }

    /// The identifier a pairing carries is the one in its value.
    pub proof fn lemma_id_view(self)
        ensures
            self.id_view() == self@.id,
    {
    }
}

impl Clone for SatelliteInstrument {
    fn clone(&self) -> (r: Self)
        ensures
            r == *self,
    {
        Self { id: self.id, satellite_id: self.satellite_id, instrument_id: self.instrument_id }
    }
}

impl Entity for SatelliteInstrument {
    proof fn lemma_copy_is_equal(original: Self, copy: Self) {
    }
}

impl HasId for SatelliteInstrument {
    closed spec fn id_view(&self) -> Option<Id> {
        self.id
    }

    closed spec fn with_id(self, id: Id) -> Self {
        SatelliteInstrument { id: Some(id), ..self }
    }

    proof fn lemma_with_id_carries(x: Self, id: Id) {
    }

    proof fn lemma_with_id_same(x: Self, id: Id) {
    }

    fn get_id(&self) -> (id: Option<Id>) {
        self.id
    }

    fn set_id(&mut self, id: Id) {
        self.id = Some(id);
    }
}

impl Table for SatelliteInstrument {
    open spec fn cells(&self) -> Seq<CellView> {
        self@.cells()
    }

    open spec fn identity_column() -> Seq<char> {
        "id"@
    }

    open spec fn hydrated(row: Seq<CellView>) -> Result<SatelliteInstrumentView, MappingError> {
        SatelliteInstrumentView::hydrated(row)
    }

    proof fn lemma_hydrate_restores(&self, row: Seq<CellView>) {
        let cells = self.cells();
        assert(cells[0].column == "satellite_id"@);
        assert(cells[1].column == "instrument_id"@);
    }

    fn flatten(&self) -> (cells: Vec<ColumnValuePair>) {
        let mut cells: Vec<ColumnValuePair> = Vec::new();
        cells.push(
            ColumnValuePair::new("satellite_id", SqlValue::Integer(self.satellite_id.id().value())),
        );
        cells.push(
            ColumnValuePair::new(
                "instrument_id",
                SqlValue::Integer(self.instrument_id.id().value()),
            ),
        );
        assert(cells_view(cells@) == self@.cells());
        cells
    }

    fn hydrate(row: &Row) -> (r: Result<Self, MappingError>) {
        let id = match row.identity("id") {
            Err(e) => {
                return Err(e);
            },
            Ok(id) => id,
        };
        let satellite_id = match row.reference("satellite_id") {
            Err(e) => {
                return Err(e);
            },
            Ok(target) => target,
        };
        let instrument_id = match row.reference("instrument_id") {
            Err(e) => {
                return Err(e);
            },
            Ok(target) => target,
        };
        Ok(
            SatelliteInstrument {
                id,
                satellite_id: Reference::new(satellite_id),
                instrument_id: Reference::new(instrument_id),
            },
        )
    }
}

/// Hydrating what a pairing flattens into gives back every field but the
/// identity, which the cells do not hold.
pub proof fn lemma_hydrate_flatten(v: SatelliteInstrumentView)
    ensures
        SatelliteInstrumentView::hydrated(v.cells()) == Ok::<SatelliteInstrumentView, MappingError>(
            SatelliteInstrumentView { id: None, ..v },
        ),
{
    reveal_strlit("id");
    reveal_strlit("satellite_id");
    reveal_strlit("instrument_id");
    let empty = Seq::<CellView>::empty();
    let first = CellView { column: "satellite_id"@, value: SqlValueView::Integer(v.satellite_id.0) };
    let second = CellView {
        column: "instrument_id"@,
        value: SqlValueView::Integer(v.instrument_id.0),
    };
    assert(v.cells() == empty.push(first).push(second));
    assert("id"@.len() != "satellite_id"@.len());
    assert("id"@.len() != "instrument_id"@.len());
    assert("satellite_id"@.len() != "instrument_id"@.len());
    lemma_lookup_push(empty, first, "id"@);
    lemma_lookup_push(empty.push(first), second, "id"@);
    lemma_lookup_push(empty, first, "satellite_id"@);
    lemma_lookup_push(empty.push(first), second, "satellite_id"@);
    lemma_lookup_push(empty.push(first), second, "instrument_id"@);
}

} // verus!
