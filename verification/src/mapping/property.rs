//! Accessor planning: which getters and setters the directives of a type's
//! fields switch on.

use crate::mapping::directive::{
    contains_attribute, copy_type, getter_attribute, has_attribute, is_copy_type, kind_of,
    none_attribute, property_kind, setter_attribute, DeriveError, DeriveInput, FieldDecl,
    PropertyKind, TypeShape,
};
use vstd::prelude::*;

verus! {

/// What accessor generation keeps of one field: its name, the accessor kind its
/// directives select, and its position among the declared fields.
#[derive(Debug)]
pub struct FieldInfo {
    pub name: String,
    pub kind: PropertyKind,
    pub index: usize,
}

/// Mathematical value of a [`FieldInfo`].
pub struct FieldInfoView {
    pub name: Seq<char>,
    pub kind: PropertyKind,
    pub index: int,
}

impl View for FieldInfo {
    type V = FieldInfoView;

    open spec fn view(&self) -> FieldInfoView {
        FieldInfoView { name: self.name@, kind: self.kind, index: self.index as int }
    }
}

impl Clone for FieldInfo {
    fn clone(&self) -> (r: Self)
        ensures
            r == *self,
    {
        FieldInfo { name: self.name.clone(), kind: self.kind, index: self.index }
    }
}

/// The views of a sequence of field infos.
pub open spec fn infos_view(infos: Seq<FieldInfo>) -> Seq<FieldInfoView> {
    Seq::new(infos.len(), |i: int| infos[i]@)
}

/// What is kept of the field declared at position `index`: a field without a
/// name is not supported, and its directives must select a kind.
pub open spec fn field_info_of(field: FieldDecl, index: int) -> Result<FieldInfoView, DeriveError> {
    match field.name {
        None => Err(DeriveError::NotSupported),
        Some(name) => match kind_of(
            has_attribute(field, getter_attribute()),
            has_attribute(field, setter_attribute()),
            has_attribute(field, none_attribute()),
        ) {
            Err(e) => Err(e),
            Ok(kind) => Ok(FieldInfoView { name: name@, kind, index }),
        },
    }
}

/// The infos of all fields in declaration order, or the error of the first
/// field that has one.
pub open spec fn field_infos_of(fields: Seq<FieldDecl>) -> Result<Seq<FieldInfoView>, DeriveError>
    decreases fields.len(),
{
    if fields.len() == 0 {
        Ok(Seq::empty())
    } else {
        match field_infos_of(fields.drop_last()) {
            Err(e) => Err(e),
            Ok(prefix) => match field_info_of(fields.last(), fields.len() - 1) {
                Err(e) => Err(e),
                Ok(info) => Ok(prefix.push(info)),
            },
        }
    }
}

/// The infos of the fields of a derive input. Only structs are supported.
pub open spec fn collected(input: DeriveInput) -> Result<Seq<FieldInfoView>, DeriveError> {
    match input {
        DeriveInput::Struct { name, fields } => field_infos_of(fields@),
        DeriveInput::Other { name } => Err(DeriveError::NotSupported),
    }
}

/// Every info stands at the position of the field it describes.
pub proof fn lemma_field_infos_positions(fields: Seq<FieldDecl>)
    ensures
        field_infos_of(fields) matches Ok(infos) ==> infos.len() == fields.len() && forall|i: int|
            0 <= i < infos.len() ==> (#[trigger] infos[i]).index == i,
    decreases fields.len(),
{
    if fields.len() > 0 {
        lemma_field_infos_positions(fields.drop_last());
    }
}

fn field_info(field: &FieldDecl, index: usize) -> (r: Result<FieldInfo, DeriveError>)
    ensures
        match r {
            Ok(info) => field_info_of(*field, index as int) == Ok::<FieldInfoView, DeriveError>(
                info@,
            ),
            Err(e) => field_info_of(*field, index as int) == Err::<FieldInfoView, DeriveError>(e),
        },
{
    match &field.name {
        None => Err(DeriveError::NotSupported),
        Some(name) => {
            let is_setter = contains_attribute(field, "setter");
            let is_getter = contains_attribute(field, "getter");
            let is_none = contains_attribute(field, "none");
            match property_kind(is_getter, is_setter, is_none) {
                Err(e) => Err(e),
                Ok(kind) => Ok(FieldInfo { name: name.clone(), kind, index }),
            }
        },
    }
}

/// Reads the accessor directives of every field of a struct, in declaration
/// order. The first field that cannot be handled decides the error.
pub fn collect_field_info(input: &DeriveInput) -> (r: Result<Vec<FieldInfo>, DeriveError>)
    ensures
        match r {
            Ok(infos) => collected(*input) == Ok::<Seq<FieldInfoView>, DeriveError>(
                infos_view(infos@),
            ),
            Err(e) => collected(*input) == Err::<Seq<FieldInfoView>, DeriveError>(e),
        },
{
    match input {
        DeriveInput::Other { .. } => Err(DeriveError::NotSupported),
        DeriveInput::Struct { fields, .. } => {
            let mut result: Vec<FieldInfo> = Vec::new();
            let mut i: usize = 0;
            assert(fields@.take(0) == Seq::<FieldDecl>::empty());
            assert(infos_view(result@) == Seq::<FieldInfoView>::empty());
            while i < fields.len()
                invariant
                    i <= fields@.len(),
                    collected(*input) == field_infos_of(fields@),
                    field_infos_of(fields@.take(i as int)) == Ok::<Seq<FieldInfoView>, DeriveError>(
                        infos_view(result@),
                    ),
                decreases fields@.len() - i,
            {
                let ghost before = fields@.take(i as int);
                let ghost next = fields@.take(i + 1);
                assert(next.drop_last() == before);
                assert(next.last() == fields@[i as int]);
                match field_info(&fields[i], i) {
                    Err(e) => {
                        proof {
                            assert(field_infos_of(next) == Err::<Seq<FieldInfoView>, DeriveError>(
                                e,
                            ));
                            lemma_field_infos_error_stays(fields@, i + 1);
                        }
                        return Err(e);
                    },
                    Ok(info) => {
                        assert(infos_view(result@.push(info)) == infos_view(result@).push(info@));
                        result.push(info);
                    },
                }
                i += 1;
            }
            assert(fields@.take(i as int) == fields@);
            Ok(result)
        },
    }
}

proof fn lemma_field_infos_error_stays(fields: Seq<FieldDecl>, k: int)
    requires
        0 <= k <= fields.len(),
        field_infos_of(fields.take(k)) is Err,
    ensures
        field_infos_of(fields) == field_infos_of(fields.take(k)),
    decreases fields.len() - k,
{
    if k == fields.len() {
        assert(fields.take(k) == fields);
    } else {
        assert(fields.take(k + 1).drop_last() == fields.take(k));
        lemma_field_infos_error_stays(fields, k + 1);
    }
}

/// How a generated accessor reaches its field.
#[derive(Clone, Copy, PartialEq, Eq, Structural, Debug)]
pub enum AccessorMode {
    /// A getter that hands out the value.
    GetByValue,
    /// A getter that hands out a shared reference.
    GetByReference,
    /// A setter that takes the new value.
    Assign,
}

/// One generated accessor method.
#[derive(Debug)]
pub struct Accessor {
    pub name: String,
    pub field: String,
    pub mode: AccessorMode,
}

/// Mathematical value of an [`Accessor`].
pub struct AccessorView {
    pub name: Seq<char>,
    pub field: Seq<char>,
    pub mode: AccessorMode,
}

impl View for Accessor {
    type V = AccessorView;

    open spec fn view(&self) -> AccessorView {
        AccessorView { name: self.name@, field: self.field@, mode: self.mode }
    }
}

/// The views of a sequence of accessors.
pub open spec fn accessors_view(accessors: Seq<Accessor>) -> Seq<AccessorView> {
    Seq::new(accessors.len(), |i: int| accessors[i]@)
}

/// Name of the getter of `field`.
pub open spec fn getter_name(field: Seq<char>) -> Seq<char> {
    "get_"@ + field
}

/// Name of the setter of `field`.
pub open spec fn setter_name(field: Seq<char>) -> Seq<char> {
    "set_"@ + field
}

/// The accessors of one field: its getter, if its kind has one, and then its
/// setter, if its kind has one.
pub open spec fn accessors_of_field(info: FieldInfoView, by_value: bool) -> Seq<AccessorView> {
    let getters = if info.kind.has_getter() {
        seq![
            AccessorView {
                name: getter_name(info.name),
                field: info.name,
                mode: if by_value {
                    AccessorMode::GetByValue
                } else {
                    AccessorMode::GetByReference
                },
            },
        ]
    } else {
        Seq::empty()
    };
    let setters = if info.kind.has_setter() {
        seq![AccessorView { name: setter_name(info.name), field: info.name, mode: AccessorMode::Assign }]
    } else {
        Seq::empty()
    };
    getters + setters
}

/// The accessors of all fields, field by field in declaration order.
pub open spec fn accessors_of(infos: Seq<FieldInfoView>, fields: Seq<FieldDecl>) -> Seq<
    AccessorView,
>
    decreases infos.len(),
{
    if infos.len() == 0 {
        Seq::empty()
    } else {
        accessors_of(infos.drop_last(), fields) + accessors_of_field(
            infos.last(),
            copy_type(fields[infos.last().index].ty),
        )
    }
}

/// The accessor block generated for a type.
#[derive(Debug)]
pub struct PropertyPlan {
    pub target: String,
    pub accessors: Vec<Accessor>,
}

/// The accessors generated for a derive input.
pub open spec fn property_plan_of(input: DeriveInput) -> Result<Seq<AccessorView>, DeriveError> {
    match input {
        DeriveInput::Struct { name, fields } => match field_infos_of(fields@) {
            Err(e) => Err(e),
            Ok(infos) => Ok(accessors_of(infos, fields@)),
        },
        DeriveInput::Other { name } => Err(DeriveError::NotSupported),
    }
}

/// The name of the item a mapping is derived for.
pub open spec fn input_name(input: DeriveInput) -> Seq<char> {
    match input {
        DeriveInput::Struct { name, fields } => name@,
        DeriveInput::Other { name } => name@,
    }
}

fn push_getter(accessors: &mut Vec<Accessor>, info: &FieldInfo, ty: &TypeShape)
    ensures
        accessors_view(final(accessors)@) == accessors_view(old(accessors)@).push(
            AccessorView {
                name: getter_name(info.name@),
                field: info.name@,
                mode: if copy_type(*ty) {
                    AccessorMode::GetByValue
                } else {
                    AccessorMode::GetByReference
                },
            },
        ),
{
    let name = String::from_str("get_").concat(info.name.as_str());
    let mode = if is_copy_type(ty) {
        AccessorMode::GetByValue
    } else {
        AccessorMode::GetByReference
    };
    let accessor = Accessor { name, field: info.name.clone(), mode };
    assert(accessors_view(accessors@.push(accessor)) == accessors_view(accessors@).push(accessor@));
    accessors.push(accessor);
}

fn push_setter(accessors: &mut Vec<Accessor>, info: &FieldInfo)
    ensures
        accessors_view(final(accessors)@) == accessors_view(old(accessors)@).push(
            AccessorView {
                name: setter_name(info.name@),
                field: info.name@,
                mode: AccessorMode::Assign,
            },
        ),
{
    let name = String::from_str("set_").concat(info.name.as_str());
    let accessor = Accessor { name, field: info.name.clone(), mode: AccessorMode::Assign };
    assert(accessors_view(accessors@.push(accessor)) == accessors_view(accessors@).push(accessor@));
    accessors.push(accessor);
}

/// Plans the accessor methods of a type: for every field, in declaration
/// order, the getter and the setter that its directives leave switched on. A
/// getter hands out a value for the well-known copyable types and a reference
/// for all others.
pub fn impl_property_macro(input: &DeriveInput) -> (r: Result<PropertyPlan, DeriveError>)
    ensures
        match r {
            Ok(plan) => plan.target@ == input_name(*input) && property_plan_of(*input) == Ok::<
                Seq<AccessorView>,
                DeriveError,
            >(accessors_view(plan.accessors@)),
            Err(e) => property_plan_of(*input) == Err::<Seq<AccessorView>, DeriveError>(e),
        },
{
    let infos = match collect_field_info(input) {
        Err(e) => {
            return Err(e);
        },
        Ok(infos) => infos,
    };
    match input {
        DeriveInput::Other { .. } => Err(DeriveError::NotSupported),
        DeriveInput::Struct { name, fields } => {
            proof {
                lemma_field_infos_positions(fields@);
                assert forall|j: int| 0 <= j < infos@.len() implies (#[trigger] infos@[j]).index
                    == j by {
                    assert(infos_view(infos@)[j].index == j);
                }
            }
            let mut accessors: Vec<Accessor> = Vec::new();
            let mut i: usize = 0;
            assert(infos_view(infos@).take(0) == Seq::<FieldInfoView>::empty());
            assert(accessors_view(accessors@) == Seq::<AccessorView>::empty());
            while i < infos.len()
                invariant
                    i <= infos@.len(),
                    infos@.len() == fields@.len(),
                    forall|j: int| 0 <= j < infos@.len() ==> (#[trigger] infos@[j]).index == j,
                    accessors_view(accessors@) == accessors_of(
                        infos_view(infos@).take(i as int),
                        fields@,
                    ),
                decreases infos@.len() - i,
            {
                let info = &infos[i];
                let ty = &fields[i].ty;
                let ghost before = accessors_view(accessors@);
                proof {
                    let next = infos_view(infos@).take(i + 1);
                    assert(next.drop_last() == infos_view(infos@).take(i as int));
                    assert(next.last() == info@);
                    assert(info@.index == i);
                }
                if info.kind.generates_getter() {
                    push_getter(&mut accessors, info, ty);
                }
                if info.kind.generates_setter() {
                    push_setter(&mut accessors, info);
                }
                assert(accessors_view(accessors@) == before + accessors_of_field(
                    info@,
                    copy_type(*ty),
                ));
                i += 1;
            }
            assert(infos_view(infos@).take(i as int) == infos_view(infos@));
            Ok(PropertyPlan { target: name.clone(), accessors })
        },
    }
}

} // verus!
