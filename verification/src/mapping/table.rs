//! Table planning: which columns hydrate an entity, which columns it is
//! flattened into, and which field is its identity.

use crate::mapping::directive::{
    contains_attribute, has_attribute, id_attribute, lemma_has_attribute, Declared, DeriveError,
    DeriveInput, FieldDecl,
};
use crate::text::views_of;
use vstd::prelude::*;

verus! {

/// Whether every field has a name.
pub open spec fn all_named(fields: Seq<FieldDecl>) -> bool {
    forall|i: int| 0 <= i < fields.len() ==> (#[trigger] fields[i]).name is Some
}

/// The name of a field that has one.
pub open spec fn name_of(field: FieldDecl) -> Seq<char> {
    field.name->0@
}

/// The names of all fields, in declaration order.
pub open spec fn column_names(fields: Seq<FieldDecl>) -> Seq<Seq<char>> {
    Seq::new(fields.len(), |i: int| name_of(fields[i]))
}

/// The names of the fields that are not marked as identity, in declaration
/// order.
pub open spec fn flattened_names(fields: Seq<FieldDecl>) -> Seq<Seq<char>>
    decreases fields.len(),
{
    if fields.len() == 0 {
        Seq::empty()
    } else if has_attribute(fields.last(), id_attribute()) {
        flattened_names(fields.drop_last())
    } else {
        flattened_names(fields.drop_last()).push(name_of(fields.last()))
    }
}

/// The name of the last field marked as identity, if any field is.
pub open spec fn identity_of(fields: Seq<FieldDecl>) -> Option<Seq<char>>
    decreases fields.len(),
{
    if fields.len() == 0 {
        None
    } else if has_attribute(fields.last(), id_attribute()) {
        Some(name_of(fields.last()))
    } else {
        identity_of(fields.drop_last())
    }
}

/// What is generated for the relational mapping of a type.
#[derive(Debug)]
pub struct TablePlan {
    /// The type the mapping is for.
    pub target: String,
    /// The identity field, through which the type meets the identifier
    /// contract.
    pub identity: Option<String>,
    /// The columns a row is read by when an entity is hydrated: one per field.
    pub hydrate_columns: Vec<String>,
    /// The columns an entity is flattened into: one per field other than the
    /// identity.
    pub flatten_columns: Vec<String>,
}

/// Plans the relational mapping of a struct: every field is hydrated from the
/// column of its name, every field but the identity is flattened, in
/// declaration order. Enums, unions and structs with unnamed fields are not
/// supported.
pub fn impl_table_macro(input: &DeriveInput) -> (r: Result<TablePlan, DeriveError>)
    ensures
        match *input {
            DeriveInput::Struct { name, fields } => if all_named(fields@) {
                &&& r matches Ok(plan)
                &&& plan.target@ == name@
                &&& views_of(plan.hydrate_columns@) == column_names(fields@)
                &&& views_of(plan.flatten_columns@) == flattened_names(fields@)
                &&& match plan.identity {
                    Some(identity) => identity_of(fields@) == Some(identity@),
                    None => identity_of(fields@) is None,
                }
            } else {
                r == Err::<TablePlan, DeriveError>(DeriveError::NotSupported)
            },
            DeriveInput::Other { name } => r == Err::<TablePlan, DeriveError>(
                DeriveError::NotSupported,
            ),
        },
{
    match input {
        DeriveInput::Other { .. } => Err(DeriveError::NotSupported),
        DeriveInput::Struct { name, fields } => {
            let mut identity: Option<String> = None;
            let mut hydrate_columns: Vec<String> = Vec::new();
            let mut flatten_columns: Vec<String> = Vec::new();
            let mut i: usize = 0;
            proof {
                assert(fields@.take(0) == Seq::<FieldDecl>::empty());
                assert(views_of(hydrate_columns@) == column_names(fields@.take(0)));
                assert(views_of(flatten_columns@) == flattened_names(fields@.take(0)));
            }
            while i < fields.len()
                invariant
                    i <= fields@.len(),
                    *input == (DeriveInput::Struct { name: *name, fields: *fields }),
                    all_named(fields@.take(i as int)),
                    views_of(hydrate_columns@) == column_names(fields@.take(i as int)),
                    views_of(flatten_columns@) == flattened_names(fields@.take(i as int)),
                    match identity {
                        Some(found) => identity_of(fields@.take(i as int)) == Some(found@),
                        None => identity_of(fields@.take(i as int)) is None,
                    },
                decreases fields@.len() - i,
            {
                let field = &fields[i];
                let ghost before = fields@.take(i as int);
                let ghost next = fields@.take(i + 1);
                proof {
                    assert(next.drop_last() == before);
                    assert(next.last() == *field);
                }
                match &field.name {
                    None => {
                        assert(!all_named(fields@)) by {
                            assert(fields@[i as int].name is None);
                        }
                        return Err(DeriveError::NotSupported);
                    },
                    Some(column) => {
                        proof {
                            assert(column_names(next) == column_names(before).push(column@));
                            assert(views_of(hydrate_columns@.push(*column)) == views_of(
                                hydrate_columns@,
                            ).push(column@));
                            assert(views_of(flatten_columns@.push(*column)) == views_of(
                                flatten_columns@,
                            ).push(column@));
                            assert(all_named(next)) by {
                                assert forall|j: int| 0 <= j < next.len() implies (
                                #[trigger] next[j]).name is Some by {
                                    if j < i {
                                        assert(before[j].name is Some);
                                    }
                                }
                            }
                        }
                        hydrate_columns.push(column.clone());
                        if contains_attribute(field, "id") {
                            identity = Some(column.clone());
                        } else {
                            flatten_columns.push(column.clone());
                        }
                    },
                }
                i += 1;
            }
            assert(fields@.take(i as int) == fields@);
            Ok(TablePlan { target: name.clone(), identity, hydrate_columns, flatten_columns })
        },
    }
}

/// The names a declaration writes, in its order.
pub open spec fn declared_names(fields: Seq<Declared>) -> Seq<Seq<char>> {
    Seq::new(fields.len(), |i: int| fields[i].name)
}

/// The names a declaration writes for fields it does not mark as identity.
pub open spec fn declared_columns(fields: Seq<Declared>) -> Seq<Seq<char>>
    decreases fields.len(),
{
    if fields.len() == 0 {
        Seq::empty()
    } else if fields.last().directives.contains(id_attribute()) {
        declared_columns(fields.drop_last())
    } else {
        declared_columns(fields.drop_last()).push(fields.last().name)
    }
}

/// The name of the last field a declaration marks as identity.
pub open spec fn declared_identity(fields: Seq<Declared>) -> Option<Seq<char>>
    decreases fields.len(),
{
    if fields.len() == 0 {
        None
    } else if fields.last().directives.contains(id_attribute()) {
        Some(fields.last().name)
    } else {
        declared_identity(fields.drop_last())
    }
}

/// The plan for fields that follow a declaration is the one read off the
/// declaration.
pub proof fn lemma_plan_of_declaration(fields: Seq<FieldDecl>, declared: Seq<Declared>)
    requires
        fields.len() == declared.len(),
        forall|i: int| 0 <= i < fields.len() ==> (#[trigger] fields[i]).follows(declared[i]),
    ensures
        all_named(fields),
        column_names(fields) == declared_names(declared),
        flattened_names(fields) == declared_columns(declared),
        identity_of(fields) == declared_identity(declared),
    decreases fields.len(),
{
    assert(column_names(fields) =~= declared_names(declared)) by {
        assert forall|i: int| 0 <= i < fields.len() implies column_names(fields)[i]
            == declared_names(declared)[i] by {
            assert(fields[i].follows(declared[i]));
        }
    }
    assert(all_named(fields)) by {
        assert forall|i: int| 0 <= i < fields.len() implies (#[trigger] fields[i]).name is Some by {
            assert(fields[i].follows(declared[i]));
        }
    }
    if fields.len() > 0 {
        let rest = fields.drop_last();
        let declared_rest = declared.drop_last();
        assert forall|i: int| 0 <= i < rest.len() implies (#[trigger] rest[i]).follows(
            declared_rest[i],
        ) by {
            assert(fields[i].follows(declared[i]));
        }
        lemma_plan_of_declaration(rest, declared_rest);
        lemma_has_attribute(fields.last(), id_attribute());
        assert(fields[fields.len() - 1].follows(declared[fields.len() - 1]));
    }
}

/// Distinct fields have distinct names.
pub open spec fn distinct_names(fields: Seq<FieldDecl>) -> bool {
    forall|i: int, j: int|
        0 <= i < j < fields.len() ==> name_of(#[trigger] fields[i]) != name_of(#[trigger] fields[j])
}

/// Every flattened column is the name of a field that is not marked as
/// identity.
pub proof fn lemma_flattened_names_origin(fields: Seq<FieldDecl>, column: Seq<char>)
    requires
        flattened_names(fields).contains(column),
    ensures
        exists|i: int|
            0 <= i < fields.len() && name_of(#[trigger] fields[i]) == column && !has_attribute(
                fields[i],
                id_attribute(),
            ),
    decreases fields.len(),
{
    if fields.len() > 0 {
        let rest = fields.drop_last();
        let last = fields.last();
        let k = choose|k: int|
            0 <= k < flattened_names(fields).len() && flattened_names(fields)[k] == column;
        if !has_attribute(last, id_attribute()) && k == flattened_names(rest).len() {
            assert(name_of(fields[fields.len() - 1]) == column);
        } else {
            assert(flattened_names(rest)[k] == column);
            lemma_flattened_names_origin(rest, column);
            let i = choose|i: int|
                0 <= i < rest.len() && name_of(#[trigger] rest[i]) == column && !has_attribute(
                    rest[i],
                    id_attribute(),
                );
            assert(fields[i] == rest[i]);
        }
    }
}

/// The identity is the name of a field marked as identity.
pub proof fn lemma_identity_origin(fields: Seq<FieldDecl>)
    ensures
        identity_of(fields) matches Some(identity) ==> exists|i: int|
            0 <= i < fields.len() && name_of(#[trigger] fields[i]) == identity && has_attribute(
                fields[i],
                id_attribute(),
            ),
    decreases fields.len(),
{
    if fields.len() > 0 {
        let rest = fields.drop_last();
        if has_attribute(fields.last(), id_attribute()) {
            assert(name_of(fields[fields.len() - 1]) == identity_of(fields)->0);
        } else {
            lemma_identity_origin(rest);
            if identity_of(rest) is Some {
                let i = choose|i: int|
                    0 <= i < rest.len() && name_of(#[trigger] rest[i]) == identity_of(rest)->0
                        && has_attribute(rest[i], id_attribute());
                assert(fields[i] == rest[i]);
            }
        }
    }
}

/// The identity column is never among the flattened columns: where the fields
/// of a type have distinct names, the column list handed to the storage
/// backend leaves the identity out.
pub proof fn lemma_flatten_excludes_identity(fields: Seq<FieldDecl>)
    requires
        distinct_names(fields),
    ensures
        identity_of(fields) matches Some(identity) ==> !flattened_names(fields).contains(identity),
{
    if identity_of(fields) is Some {
        let identity = identity_of(fields)->0;
        if flattened_names(fields).contains(identity) {
            lemma_flattened_names_origin(fields, identity);
            lemma_identity_origin(fields);
            let i = choose|i: int|
                0 <= i < fields.len() && name_of(#[trigger] fields[i]) == identity
                    && !has_attribute(fields[i], id_attribute());
            let j = choose|j: int|
                0 <= j < fields.len() && name_of(#[trigger] fields[j]) == identity && has_attribute(
                    fields[j],
                    id_attribute(),
                );
            if i < j {
                assert(name_of(fields[i]) != name_of(fields[j]));
            } else if j < i {
                assert(name_of(fields[j]) != name_of(fields[i]));
            }
        }
    }
}

} // verus!
