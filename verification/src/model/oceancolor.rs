//! Bindings of a satellite and instrument pairing to the sensor and product
//! identifiers under which the ocean colour provider files its data.

use crate::id::{HasId, Id, Reference};
use crate::mapping::directive::{declares, Declared, DeriveInput, FieldDecl, TypeShape};
use crate::mapping::row::{
    cells_view, identity_at, integer_at, lemma_lookup_push, reference_at, CellView,
    ColumnValuePair, MappingError, Row, SqlValue, SqlValueView, Table,
};
use crate::model::satellite_instrument::SatelliteInstrument;
use crate::mapping::table::{declared_columns, declared_identity, declared_names};
use crate::sql::columns_of;
use crate::repository::Entity;
use vstd::prelude::*;

verus! {

/// Sensor identifier of the provider.
pub type SensorId = i32;

/// Product identifier of the provider.
pub type DataId = i32;

/// Binds a pairing to the provider's identifiers used when querying.
#[derive(Debug)]
pub struct OceanColorMapping {
    id: Option<Id>,
    satellite_instrument_id: Reference<SatelliteInstrument>,
    sensor_id: SensorId,
    data_id: DataId,
}

/// Mathematical value of an [`OceanColorMapping`].
pub struct OceanColorMappingView {
    pub id: Option<Id>,
    pub satellite_instrument_id: Id,
    pub sensor_id: i32,
    pub data_id: i32,
}

impl View for OceanColorMapping {
    type V = OceanColorMappingView;

    closed spec fn view(&self) -> OceanColorMappingView {
        OceanColorMappingView {
            id: self.id,
            satellite_instrument_id: self.satellite_instrument_id.target(),
            sensor_id: self.sensor_id,
            data_id: self.data_id,
        }
    }
}

impl OceanColorMappingView {
    /// The cells of a mapping: the pairing and the two provider identifiers.
    pub open spec fn cells(self) -> Seq<CellView> {
        seq![
            CellView {
                column: "satellite_instrument_id"@,
                value: SqlValueView::Integer(self.satellite_instrument_id.0),
            },
            CellView { column: "sensor_id"@, value: SqlValueView::Integer(self.sensor_id) },
            CellView { column: "data_id"@, value: SqlValueView::Integer(self.data_id) },
        ]
    }

    /// The mapping a row holds.
    pub open spec fn hydrated(row: Seq<CellView>) -> Result<OceanColorMappingView, MappingError> {
        match identity_at(row, "id"@) {
            Err(e) => Err(e),
            Ok(id) => match reference_at(row, "satellite_instrument_id"@) {
                Err(e) => Err(e),
                Ok(satellite_instrument_id) => match integer_at(row, "sensor_id"@) {
                    Err(e) => Err(e),
                    Ok(sensor_id) => match integer_at(row, "data_id"@) {
                        Err(e) => Err(e),
                        Ok(data_id) => Ok(
                            OceanColorMappingView {
                                id,
                                satellite_instrument_id,
                                sensor_id,
                                data_id,
                            },
                        ),
                    },
                },
            },
        }
    }
}

impl OceanColorMapping {
    /// The fields of a mapping with their directives, in declaration order.
    pub open spec fn declared() -> Seq<Declared> {
        seq![
            Declared { name: "id"@, directives: seq!["id"@, "none"@] },
            Declared { name: "satellite_instrument_id"@, directives: Seq::empty() },
            Declared { name: "sensor_id"@, directives: Seq::empty() },
            Declared { name: "data_id"@, directives: Seq::empty() },
        ]
    }

    /// The declaration that the mapping of a mapping follows.
    pub fn declaration() -> (input: DeriveInput)
        ensures
            declares(input, "OceanColorMapping"@, Self::declared()),
    {
        let mut fields: Vec<FieldDecl> = Vec::new();
        fields.push(
            FieldDecl::named("id", TypeShape::applied("Option", TypeShape::plain("Id")))
                .with("id")
                .with("none"),
        );
        fields.push(
            FieldDecl::named(
                "satellite_instrument_id",
                TypeShape::applied("Reference", TypeShape::plain("SatelliteInstrument")),
            ),
        );
        fields.push(FieldDecl::named("sensor_id", TypeShape::plain("i32")));
        fields.push(FieldDecl::named("data_id", TypeShape::plain("i32")));
        proof {
            assert(Seq::<Seq<char>>::empty().push("id"@).push("none"@) =~= seq!["id"@, "none"@]);
        }
        DeriveInput::Struct { name: String::from_str("OceanColorMapping"), fields }
    }

    /// What is planned for the declaration is what the mapping does: it reads
    /// every field by its name, takes `id` as the identity and flattens the
    /// other fields into the columns of their names.
    pub proof fn lemma_mapping_follows_declaration(v: OceanColorMappingView)
        ensures
            declared_names(Self::declared()) == seq!["id"@, "satellite_instrument_id"@, "sensor_id"@, "data_id"@],
            declared_identity(Self::declared()) == Some("id"@),
            declared_columns(Self::declared()) == columns_of(v.cells()),
    {
        reveal_with_fuel(declared_columns, 5);
        reveal_with_fuel(declared_identity, 5);
        let declared = Self::declared();
        let identity = declared.drop_last().drop_last().drop_last();
        assert(identity.drop_last() =~= Seq::<Declared>::empty());
        assert(identity.last().directives[0] == "id"@);
        assert(declared_columns(declared) =~= columns_of(v.cells()));
        assert(declared_names(declared) =~= seq!["id"@, "satellite_instrument_id"@, "sensor_id"@, "data_id"@]);
    }

    pub fn new(satellite_instrument_id: Id, sensor_id: SensorId, data_id: DataId) -> (r: Self)
        ensures
            r@ == (OceanColorMappingView { id: None, satellite_instrument_id, sensor_id, data_id }),
    {
        Self {
            id: None,
            satellite_instrument_id: Reference::new(satellite_instrument_id),
            sensor_id,
            data_id,
        }
    }

    pub fn get_satellite_instrument_id(&self) -> (r: Reference<SatelliteInstrument>)
        ensures
            r.target() == self@.satellite_instrument_id,
    {
        self.satellite_instrument_id
    }

    pub fn set_satellite_instrument_id(
        &mut self,
        satellite_instrument_id: Reference<SatelliteInstrument>,
    )
        ensures
            final(self)@ == (OceanColorMappingView {
                satellite_instrument_id: satellite_instrument_id.target(),
                ..old(self)@
            }),
    {
        self.satellite_instrument_id = satellite_instrument_id;
    }

    pub fn get_sensor_id(&self) -> (sensor_id: SensorId)
        ensures
            sensor_id == self@.sensor_id,
    {
        self.sensor_id
    }

    pub fn set_sensor_id(&mut self, sensor_id: SensorId)
        ensures
            final(self)@ == (OceanColorMappingView { sensor_id, ..old(self)@ }),
    {
        self.sensor_id = sensor_id;
    }

    pub fn get_data_id(&self) -> (data_id: DataId)
        ensures
            data_id == self@.data_id,
    {
        self.data_id
    }

    pub fn set_data_id(&mut self, data_id: DataId)
        ensures
            final(self)@ == (OceanColorMappingView { data_id, ..old(self)@ }),
    {
        self.data_id = data_id;
    }

    /// Carrying an identifier changes nothing but the identifier.
    pub proof fn lemma_with_id_view(self, id: Id)
        ensures
            self.with_id(id)@ == (OceanColorMappingView { id: Some(id), ..self@ }),
    {
    }

    /// The identifier a mapping carries is the one in its value.
    pub proof fn lemma_id_view(self)
        ensures
            self.id_view() == self@.id,
    {
    }
}

impl Clone for OceanColorMapping {
    fn clone(&self) -> (r: Self)
        ensures
            r == *self,
    {
        Self {
            id: self.id,
            satellite_instrument_id: self.satellite_instrument_id,
            sensor_id: self.sensor_id,
            data_id: self.data_id,
        }
    }
}

impl Entity for OceanColorMapping {
    proof fn lemma_copy_is_equal(original: Self, copy: Self) {
    }
}

impl HasId for OceanColorMapping {
    closed spec fn id_view(&self) -> Option<Id> {
        self.id
    }

    closed spec fn with_id(self, id: Id) -> Self {
        OceanColorMapping { id: Some(id), ..self }
    }

    proof fn lemma_with_id_carries(x: Self, id: Id) {
    }

    proof fn lemma_with_id_same(x: Self, id: Id) {
    }

    fn get_id(&self) -> (id: Option<Id>) {
        self.id
    }

    fn set_id(&mut self, id: Id) {
        self.id = Some(id);
    }
}

impl Table for OceanColorMapping {
    open spec fn cells(&self) -> Seq<CellView> {
        self@.cells()
    }

    open spec fn identity_column() -> Seq<char> {
        "id"@
    }

    open spec fn hydrated(row: Seq<CellView>) -> Result<OceanColorMappingView, MappingError> {
        OceanColorMappingView::hydrated(row)
    }

    proof fn lemma_hydrate_restores(&self, row: Seq<CellView>) {
        let cells = self.cells();
        assert(cells[0].column == "satellite_instrument_id"@);
        assert(cells[1].column == "sensor_id"@);
        assert(cells[2].column == "data_id"@);
    }

    fn flatten(&self) -> (cells: Vec<ColumnValuePair>) {
        let mut cells: Vec<ColumnValuePair> = Vec::new();
        cells.push(
            ColumnValuePair::new(
                "satellite_instrument_id",
                SqlValue::Integer(self.satellite_instrument_id.id().value()),
            ),
        );
        cells.push(ColumnValuePair::new("sensor_id", SqlValue::Integer(self.sensor_id)));
        cells.push(ColumnValuePair::new("data_id", SqlValue::Integer(self.data_id)));
        assert(cells_view(cells@) == self@.cells());
        cells
    }

    fn hydrate(row: &Row) -> (r: Result<Self, MappingError>) {
        let id = match row.identity("id") {
            Err(e) => {
                return Err(e);
            },
            Ok(id) => id,
        };
        let satellite_instrument_id = match row.reference("satellite_instrument_id") {
            Err(e) => {
                return Err(e);
            },
            Ok(target) => target,
        };
        let sensor_id = match row.integer("sensor_id") {
            Err(e) => {
                return Err(e);
            },
            Ok(v) => v,
        };
        let data_id = match row.integer("data_id") {
            Err(e) => {
                return Err(e);
            },
            Ok(v) => v,
        };
        Ok(
            OceanColorMapping {
                id,
                satellite_instrument_id: Reference::new(satellite_instrument_id),
                sensor_id,
                data_id,
            },
        )
    }
}

/// Hydrating what a mapping flattens into gives back every field but the
/// identity, which the cells do not hold.
pub proof fn lemma_hydrate_flatten(v: OceanColorMappingView)
    ensures
        OceanColorMappingView::hydrated(v.cells()) == Ok::<OceanColorMappingView, MappingError>(
            OceanColorMappingView { id: None, ..v },
        ),
{
    reveal_strlit("id");
    reveal_strlit("satellite_instrument_id");
    reveal_strlit("sensor_id");
    reveal_strlit("data_id");
    let empty = Seq::<CellView>::empty();
    let first = CellView {
        column: "satellite_instrument_id"@,
        value: SqlValueView::Integer(v.satellite_instrument_id.0),
    };
    let second = CellView { column: "sensor_id"@, value: SqlValueView::Integer(v.sensor_id) };
    let third = CellView { column: "data_id"@, value: SqlValueView::Integer(v.data_id) };
    let one = empty.push(first);
    let two = one.push(second);
    assert(v.cells() == two.push(third));
    assert("id"@.len() == 2);
    assert("satellite_instrument_id"@.len() == 23);
    assert("sensor_id"@.len() == 9);
    assert("data_id"@.len() == 7);
    lemma_lookup_push(empty, first, "id"@);
    lemma_lookup_push(one, second, "id"@);
    lemma_lookup_push(two, third, "id"@);
    lemma_lookup_push(empty, first, "satellite_instrument_id"@);
    lemma_lookup_push(one, second, "satellite_instrument_id"@);
    lemma_lookup_push(two, third, "satellite_instrument_id"@);
    lemma_lookup_push(one, second, "sensor_id"@);
    lemma_lookup_push(two, third, "sensor_id"@);
    lemma_lookup_push(two, third, "data_id"@);
}

} // verus!
