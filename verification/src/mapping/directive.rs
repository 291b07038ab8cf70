//! Declarative field directives of a persisted entity, and the plans derived
//! from them: which accessors a field gets, which columns hydrate the entity,
//! which columns it is flattened into, and which field is its identity.

use crate::text::{same_text, views_of};
use vstd::prelude::*;

verus! {

/// Directive that marks the identity field.
pub open spec fn id_attribute() -> Seq<char> {
    "id"@
}

/// Directive that asks for a setter.
pub open spec fn setter_attribute() -> Seq<char> {
    "setter"@
}

/// Directive that asks for a getter.
pub open spec fn getter_attribute() -> Seq<char> {
    "getter"@
}

/// Directive that suppresses both accessors.
pub open spec fn none_attribute() -> Seq<char> {
    "none"@
}

/// The shape of a field's declared type, as far as accessor generation reads
/// it.
#[derive(Debug)]
pub enum TypeShape {
    /// A path of one segment without generic arguments, such as `i32`.
    Plain { ident: String },
    /// A path of one segment with exactly one generic argument, a type, such
    /// as `Option<i64>`.
    Applied { ident: String, argument: Box<TypeShape> },
    /// A path of one segment with any other generic arguments.
    Generic { ident: String },
    /// Anything else: a path of several segments, a reference, a tuple.
    Other,
}

/// One declared field: its name, if it has one, the single-word directives
/// attached to it, and its type.
#[derive(Debug)]
pub struct FieldDecl {
    pub name: Option<String>,
    pub attributes: Vec<String>,
    pub ty: TypeShape,
}

impl TypeShape {
    /// The type named `ident`.
    pub fn plain(ident: &str) -> (ty: TypeShape)
        ensures
            ty matches TypeShape::Plain { ident: name } && name@ == ident@,
    {
        TypeShape::Plain { ident: String::from_str(ident) }
    }

    /// The generic type named `ident`, applied to `argument`.
    pub fn applied(ident: &str, argument: TypeShape) -> (ty: TypeShape)
        ensures
            ty matches TypeShape::Applied { ident: name, argument: inner } && name@ == ident@
                && *inner == argument,
    {
        TypeShape::Applied { ident: String::from_str(ident), argument: Box::new(argument) }
    }
}

/// A field as a declaration writes it: its name and its directives.
pub struct Declared {
    pub name: Seq<char>,
    pub directives: Seq<Seq<char>>,
}

impl FieldDecl {
    /// Whether the field is the one a declaration writes.
    pub open spec fn follows(self, declared: Declared) -> bool {
        &&& self.name matches Some(name) && name@ == declared.name
        &&& views_of(self.attributes@) == declared.directives
    }

    /// A named field without directives.
    pub fn named(name: &str, ty: TypeShape) -> (field: FieldDecl)
        ensures
            field.follows(Declared { name: name@, directives: Seq::empty() }),
            field.ty == ty,
    {
        let field = FieldDecl { name: Some(String::from_str(name)), attributes: Vec::new(), ty };
        assert(views_of(field.attributes@) =~= Seq::<Seq<char>>::empty());
        field
    }

    /// The field with one more directive.
    pub fn with(self, attribute: &str) -> (field: FieldDecl)
        ensures
            field.name == self.name,
            field.ty == self.ty,
            views_of(field.attributes@) == views_of(self.attributes@).push(attribute@),
    {
        let mut field = self;
        field.attributes.push(String::from_str(attribute));
        assert(views_of(field.attributes@) =~= views_of(self.attributes@).push(attribute@));
        field
    }
}

/// The item a mapping is derived for.
#[derive(Debug)]
pub enum DeriveInput {
    /// A struct with its fields in declaration order.
    Struct { name: String, fields: Vec<FieldDecl> },
    /// An enum or a union.
    Other { name: String },
}

/// Why no mapping can be derived.
#[derive(Clone, Copy, PartialEq, Eq, Structural, Debug)]
pub enum DeriveError {
    /// The item is no struct, or one of its fields has no name.
    NotSupported,
    /// A field both suppresses its accessors and asks for one.
    IncorrectAttributeUsage,
}

/// Which accessors a field gets.
#[derive(Clone, Copy, PartialEq, Eq, Structural, Debug)]
pub enum PropertyKind {
    /// No directive: getter and setter.
    Auto,
    /// Accessors suppressed.
    Suppressed,
    /// Getter only.
    Getter,
    /// Setter only.
    Setter,
    /// Getter and setter, both asked for.
    Full,
}

impl PropertyKind {
    /// Whether a field of this kind gets a getter.
    pub open spec fn has_getter(self) -> bool {
        self == PropertyKind::Auto || self == PropertyKind::Getter || self == PropertyKind::Full
    }

    /// Whether a field of this kind gets a setter.
    pub open spec fn has_setter(self) -> bool {
        self == PropertyKind::Auto || self == PropertyKind::Setter || self == PropertyKind::Full
    }

    /// Whether a field of this kind gets a getter.
    pub fn generates_getter(&self) -> (b: bool)
        ensures
            b == self.has_getter(),
    {
        match self {
            PropertyKind::Auto | PropertyKind::Getter | PropertyKind::Full => true,
            PropertyKind::Suppressed | PropertyKind::Setter => false,
        }
    }

    /// Whether a field of this kind gets a setter.
    pub fn generates_setter(&self) -> (b: bool)
        ensures
            b == self.has_setter(),
    {
        match self {
            PropertyKind::Auto | PropertyKind::Setter | PropertyKind::Full => true,
            PropertyKind::Suppressed | PropertyKind::Getter => false,
        }
    }
}

/// The kind that a field's three accessor directives select. Suppressing the
/// accessors while asking for one is an error.
pub open spec fn kind_of(is_getter: bool, is_setter: bool, is_none: bool) -> Result<
    PropertyKind,
    DeriveError,
> {
    if is_none && (is_setter || is_getter) {
        Err(DeriveError::IncorrectAttributeUsage)
    } else if is_setter && is_getter {
        Ok(PropertyKind::Full)
    } else if is_setter {
        Ok(PropertyKind::Setter)
    } else if is_getter {
        Ok(PropertyKind::Getter)
    } else if is_none {
        Ok(PropertyKind::Suppressed)
    } else {
        Ok(PropertyKind::Auto)
    }
}

/// Selects the accessor kind from a field's directives.
pub fn property_kind(is_getter: bool, is_setter: bool, is_none: bool) -> (r: Result<
    PropertyKind,
    DeriveError,
>)
    ensures
        r == kind_of(is_getter, is_setter, is_none),
{
    if is_none && (is_setter || is_getter) {
        return Err(DeriveError::IncorrectAttributeUsage);
    }
    let mut kind = PropertyKind::Auto;
    if is_none {
        kind = PropertyKind::Suppressed;
    }
    if is_setter && is_getter {
        kind = PropertyKind::Full;
    } else if is_setter {
        kind = PropertyKind::Setter;
    } else if is_getter {
        kind = PropertyKind::Getter;
    }
    Ok(kind)
}

/// Whether `field` carries the directive `name`.
pub open spec fn has_attribute(field: FieldDecl, name: Seq<char>) -> bool {
    exists|i: int| 0 <= i < field.attributes@.len() && (#[trigger] field.attributes@[i])@ == name
}

/// A field carries a directive exactly where the directive is among those the
/// declaration writes for it.
pub proof fn lemma_has_attribute(field: FieldDecl, name: Seq<char>)
    ensures
        has_attribute(field, name) == views_of(field.attributes@).contains(name),
{
    let directives = views_of(field.attributes@);
    if has_attribute(field, name) {
        let i = choose|i: int|
            0 <= i < field.attributes@.len() && (#[trigger] field.attributes@[i])@ == name;
        assert(directives[i] == name);
    }
    if directives.contains(name) {
        let i = choose|i: int| 0 <= i < directives.len() && directives[i] == name;
        assert(field.attributes@[i]@ == name);
    }
}

/// Whether `input` is the struct a declaration writes: of that name, with
/// those fields in that order.
pub open spec fn declares(input: DeriveInput, name: Seq<char>, fields: Seq<Declared>) -> bool {
    &&& input matches DeriveInput::Struct { name: target, fields: declared }
    &&& target@ == name
    &&& declared@.len() == fields.len()
    &&& forall|i: int| 0 <= i < fields.len() ==> (#[trigger] declared@[i]).follows(fields[i])
}

/// Whether `field` carries the directive `name`.
pub fn contains_attribute(field: &FieldDecl, name: &str) -> (found: bool)
    ensures
        found == has_attribute(*field, name@),
{
    let mut i: usize = 0;
    while i < field.attributes.len()
        invariant
            i <= field.attributes@.len(),
            forall|j: int| 0 <= j < i ==> (#[trigger] field.attributes@[j])@ != name@,
        decreases field.attributes@.len() - i,
    {
        if same_text(field.attributes[i].as_str(), name) {
            return true;
        }
        i += 1;
    }
    false
}

/// Names of the types whose values a getter hands out by value.
pub open spec fn well_known_type(ident: Seq<char>) -> bool {
    ident == "i8"@ || ident == "u8"@ || ident == "i16"@ || ident == "u16"@ || ident == "i32"@
        || ident == "u32"@ || ident == "i64"@ || ident == "u64"@ || ident == "i128"@ || ident
        == "u128"@ || ident == "isize"@ || ident == "usize"@ || ident == "f32"@ || ident == "f64"@
        || ident == "bool"@ || ident == "char"@ || ident == "Id"@ || ident == "Reference"@
}

/// Whether a getter for a field of this type hands the value out by value: the
/// type is well known, or it is an `Option` of such a type.
pub open spec fn copy_type(ty: TypeShape) -> bool
    decreases ty,
{
    match ty {
        TypeShape::Plain { ident } => well_known_type(ident@),
        TypeShape::Applied { ident, argument } => well_known_type(ident@) || (ident@ == "Option"@
            && copy_type(*argument)),
        TypeShape::Generic { ident } => well_known_type(ident@),
        TypeShape::Other => false,
    }
}

fn is_well_known(ident: &str) -> (b: bool)
    ensures
        b == well_known_type(ident@),
{
    same_text(ident, "i8") || same_text(ident, "u8") || same_text(ident, "i16") || same_text(
        ident,
        "u16",
    ) || same_text(ident, "i32") || same_text(ident, "u32") || same_text(ident, "i64")
        || same_text(ident, "u64") || same_text(ident, "i128") || same_text(ident, "u128")
        || same_text(ident, "isize") || same_text(ident, "usize") || same_text(ident, "f32")
        || same_text(ident, "f64") || same_text(ident, "bool") || same_text(ident, "char")
        || same_text(ident, "Id") || same_text(ident, "Reference")
}

/// Whether a getter for a field of this type hands the value out by value.
pub fn is_copy_type(ty: &TypeShape) -> (b: bool)
    ensures
        b == copy_type(*ty),
    decreases ty,
{
    match ty {
        TypeShape::Plain { ident } => is_well_known(ident.as_str()),
        TypeShape::Applied { ident, argument } => {
            if is_well_known(ident.as_str()) {
                true
            } else if same_text(ident.as_str(), "Option") {
                is_copy_type(argument)
            } else {
                false
            }
        },
        TypeShape::Generic { ident } => is_well_known(ident.as_str()),
        TypeShape::Other => false,
    }
}

} // verus!
