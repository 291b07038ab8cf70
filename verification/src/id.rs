//! Typed identifiers and non-owning references between entities.

use crate::text::{signed_decimal, signed_decimal_string};
use std::marker::PhantomData;
use vstd::prelude::*;

verus! {

/// Identifier of a record within one table.
#[derive(Clone, Copy, PartialEq, Eq, Structural, Hash, Debug)]
pub struct Id(pub i32);

impl Id {
    /// Wraps a raw table key.
    pub fn new(raw: i32) -> (id: Id)
        ensures
            id == Id(raw),
    {
        Id(raw)
    }

    /// The raw table key.
    pub fn value(&self) -> (raw: i32)
        ensures
            raw == self.0,
    {
        self.0
    }

    /// The identifier as it is written in messages, `Id(7)`.
    pub open spec fn text(self) -> Seq<char> {
        "Id("@ + signed_decimal(self.0 as int) + ")"@
    }

    /// The identifier as it is written in messages.
    pub fn to_text(&self) -> (text: String)
        ensures
            text@ == self.text(),
    {
        String::from_str("Id(").concat(signed_decimal_string(self.0 as i64).as_str()).concat(")")
    }
}

/// Contract of every persisted entity: it carries an optional identifier that
/// the repository fills in on first insert.
pub trait HasId: Sized {
    /// The identifier the entity currently carries.
    spec fn id_view(&self) -> Option<Id>;

    /// The same entity carrying `id`.
    spec fn with_id(self, id: Id) -> Self;

    /// Setting the identifier is observable through `id_view`.
    proof fn lemma_with_id_carries(x: Self, id: Id)
        ensures
            x.with_id(id).id_view() == Some(id),
    ;

    /// Re-setting the identifier an entity already carries changes nothing.
    proof fn lemma_with_id_same(x: Self, id: Id)
        requires
            x.id_view() == Some(id),
        ensures
            x.with_id(id) == x,
    ;

    fn get_id(&self) -> (id: Option<Id>)
        ensures
            id == self.id_view(),
    ;

    fn set_id(&mut self, id: Id)
        ensures
            *final(self) == old(self).with_id(id),
    ;
}

/// Typed, non-owning pointer to an entity of kind `T`. Holding one says nothing
/// about whether the target exists.
#[derive(Debug)]
pub struct Reference<T: HasId> {
    id: Id,
    marker: PhantomData<T>,
}

impl<T: HasId> Reference<T> {
    /// The identifier this reference points at.
    pub closed spec fn target(&self) -> Id {
        self.id
    }

    pub fn new(id: Id) -> (r: Self)
        ensures
            r.target() == id,
    {
        Self { id, marker: PhantomData }
    }

    /// The identifier this reference points at.
    pub fn id(&self) -> (id: Id)
        ensures
            id == self.target(),
    {
        self.id
    }
}

impl<T: HasId> Clone for Reference<T> {
    fn clone(&self) -> (r: Self)
        ensures
            r == *self,
    {
        Self { id: self.id, marker: PhantomData }
    }
}

impl<T: HasId> Copy for Reference<T> {}

impl<T: HasId> std::ops::Deref for Reference<T> {
    type Target = Id;

    fn deref(&self) -> (id: &Id)
        ensures
            *id == self.target(),
    {
        &self.id
    }
}

impl<T: HasId> PartialEq<Id> for Reference<T> {
    fn eq(&self, other: &Id) -> (same: bool) {
        self.id == *other
    }
}

impl<T: HasId> vstd::std_specs::cmp::PartialEqSpecImpl<Id> for Reference<T> {
    open spec fn obeys_eq_spec() -> bool {
        true
    }

    open spec fn eq_spec(&self, other: &Id) -> bool {
        self.target() == *other
    }
}

} // verus!
