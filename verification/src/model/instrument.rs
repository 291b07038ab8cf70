//! Instruments: the sensors that satellites carry.

use crate::id::{HasId, Id};
use crate::mapping::directive::{declares, Declared, DeriveInput, FieldDecl, TypeShape};
use crate::mapping::row::{
    cells_view, identity_at, lemma_lookup_push, text_at, CellView, ColumnValuePair, MappingError,
    Row, SqlValue, SqlValueView, Table,
};
use crate::mapping::table::{declared_columns, declared_identity, declared_names};
use crate::sql::columns_of;
use crate::repository::Entity;
use vstd::prelude::*;

verus! {

/// An instrument.
#[derive(Debug)]
pub struct Instrument {
    id: Option<Id>,
    name: String,
}

/// Mathematical value of an [`Instrument`].
pub struct InstrumentView {
    pub id: Option<Id>,
    pub name: Seq<char>,
}

impl View for Instrument {
    type V = InstrumentView;

    closed spec fn view(&self) -> InstrumentView {
        InstrumentView { id: self.id, name: self.name@ }
    }
}

impl InstrumentView {
    /// The cells of an instrument: its name.
    pub open spec fn cells(self) -> Seq<CellView> {
        seq![CellView { column: "name"@, value: SqlValueView::Text(self.name) }]
    }

    /// The instrument a row holds: the identity from `id`, the name from
    /// `name`.
    pub open spec fn hydrated(row: Seq<CellView>) -> Result<InstrumentView, MappingError> {
        match identity_at(row, "id"@) {
            Err(e) => Err(e),
            Ok(id) => match text_at(row, "name"@) {
                Err(e) => Err(e),
                Ok(name) => Ok(InstrumentView { id, name }),
            },
        }
    }
}

impl Instrument {
    /// The fields of an instrument with their directives, in declaration order.
    pub open spec fn declared() -> Seq<Declared> {
        seq![
            Declared { name: "id"@, directives: seq!["id"@, "none"@] },
            Declared { name: "name"@, directives: Seq::empty() },
        ]
    }

    /// The declaration that the mapping of an instrument follows.
    pub fn declaration() -> (input: DeriveInput)
        ensures
            declares(input, "Instrument"@, Self::declared()),
    {
        let mut fields: Vec<FieldDecl> = Vec::new();
        fields.push(
            FieldDecl::named("id", TypeShape::applied("Option", TypeShape::plain("Id")))
                .with("id")
                .with("none"),
        );
        fields.push(FieldDecl::named("name", TypeShape::plain("String")));
        proof {
            assert(Seq::<Seq<char>>::empty().push("id"@).push("none"@) =~= seq!["id"@, "none"@]);
        }
        DeriveInput::Struct { name: String::from_str("Instrument"), fields }
    }

    /// What is planned for the declaration is what the mapping does: it reads
    /// every field by its name, takes `id` as the identity and flattens the
    /// other fields into the columns of their names.
    pub proof fn lemma_mapping_follows_declaration(v: InstrumentView)
        ensures
            declared_names(Self::declared()) == seq!["id"@, "name"@],
            declared_identity(Self::declared()) == Some("id"@),
            declared_columns(Self::declared()) == columns_of(v.cells()),
    {
        reveal_with_fuel(declared_columns, 3);
        reveal_with_fuel(declared_identity, 3);
        let declared = Self::declared();
        let identity = declared.drop_last();
        assert(identity.drop_last() =~= Seq::<Declared>::empty());
        assert(identity.last().directives[0] == "id"@);
        assert(declared_columns(declared) =~= columns_of(v.cells()));
        assert(declared_names(declared) =~= seq!["id"@, "name"@]);
    }

    pub fn new(name: &str) -> (r: Self)
        ensures
            r@ == (InstrumentView { id: None, name: name@ }),
    {
        Self { id: None, name: String::from_str(name) }
    }

    pub fn get_name(&self) -> (name: &String)
        ensures
            name@ == self@.name,
    {
        &self.name
    }

    pub fn set_name(&mut self, name: String)
        ensures
            final(self)@ == (InstrumentView { name: name@, ..old(self)@ }),
    {
        self.name = name;
    }

    /// Carrying an identifier changes nothing but the identifier.
    pub proof fn lemma_with_id_view(self, id: Id)
        ensures
            self.with_id(id)@ == (InstrumentView { id: Some(id), ..self@ }),
    {
    }

    /// The identifier an instrument carries is the one in its value.
    pub proof fn lemma_id_view(self)
        ensures
            self.id_view() == self@.id,
    {
    }
}

impl Clone for Instrument {
    fn clone(&self) -> (r: Self)
        ensures
            r == *self,
    {
        Self { id: self.id, name: self.name.clone() }
    }
}

impl Entity for Instrument {
    proof fn lemma_copy_is_equal(original: Self, copy: Self) {
    }
}

impl HasId for Instrument {
    closed spec fn id_view(&self) -> Option<Id> {
        self.id
    }

    closed spec fn with_id(self, id: Id) -> Self {
        Instrument { id: Some(id), ..self }
    }

    proof fn lemma_with_id_carries(x: Self, id: Id) {
    }

    proof fn lemma_with_id_same(x: Self, id: Id) {
    }

    fn get_id(&self) -> (id: Option<Id>) {
        self.id
    }

    fn set_id(&mut self, id: Id) {
        self.id = Some(id);
    }
}

impl Table for Instrument {
    open spec fn cells(&self) -> Seq<CellView> {
        self@.cells()
    }

    open spec fn identity_column() -> Seq<char> {
        "id"@
    }

    open spec fn hydrated(row: Seq<CellView>) -> Result<InstrumentView, MappingError> {
        InstrumentView::hydrated(row)
    }

    proof fn lemma_hydrate_restores(&self, row: Seq<CellView>) {
        let cells = self.cells();
        assert(cells[0].column == "name"@);
    }

    fn flatten(&self) -> (cells: Vec<ColumnValuePair>) {
        let mut cells: Vec<ColumnValuePair> = Vec::new();
        cells.push(ColumnValuePair::new("name", SqlValue::Text(self.name.clone())));
        assert(cells_view(cells@) == self@.cells());
        cells
    }

    fn hydrate(row: &Row) -> (r: Result<Self, MappingError>) {
        let id = match row.identity("id") {
            Err(e) => {
                return Err(e);
            },
            Ok(id) => id,
        };
        let name = match row.text("name") {
            Err(e) => {
                return Err(e);
            },
            Ok(name) => name,
        };
        Ok(Instrument { id, name })
    }
}

/// Hydrating what an instrument flattens into gives back every field but the
/// identity, which the cells do not hold.
pub proof fn lemma_hydrate_flatten(v: InstrumentView)
    ensures
        InstrumentView::hydrated(v.cells()) == Ok::<InstrumentView, MappingError>(
            InstrumentView { id: None, ..v },
        ),
{
    reveal_strlit("id");
    reveal_strlit("name");
    let empty = Seq::<CellView>::empty();
    let name = CellView { column: "name"@, value: SqlValueView::Text(v.name) };
    assert(v.cells() == empty.push(name));
    lemma_lookup_push(empty, name, "id"@);
    lemma_lookup_push(empty, name, "name"@);
    assert("id"@.len() != "name"@.len());
}

} // verus!
