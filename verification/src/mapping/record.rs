//! Records: values of a declared struct, reached through the accessors that
//! the directives of its fields switch on.

use crate::mapping::directive::{DeriveError, DeriveInput, PropertyKind};
use crate::mapping::property::{
    collect_field_info, collected, getter_name, infos_view, setter_name, FieldInfo, FieldInfoView,
};
use crate::mapping::row::{SqlValue, SqlValueView};
use crate::text::same_text;
use vstd::prelude::*;

verus! {

/// A value of a declared struct: for every field its name, the accessor kind
/// its directives select, and its value.
#[derive(Debug)]
pub struct Record {
    slots: Vec<Slot>,
}

#[derive(Debug)]
struct Slot {
    info: FieldInfo,
    value: SqlValue,
}

/// Mathematical value of a [`Record`].
pub struct RecordView {
    pub fields: Seq<FieldInfoView>,
    pub values: Seq<SqlValueView>,
}

/// The views of a sequence of values.
pub open spec fn values_view(values: Seq<SqlValue>) -> Seq<SqlValueView> {
    Seq::new(values.len(), |i: int| values[i]@)
}

impl RecordView {
    /// Whether the getter of the field at `index` is switched on and named
    /// `accessor`.
    pub open spec fn is_getter(self, index: int, accessor: Seq<char>) -> bool {
        self.fields[index].kind.has_getter() && getter_name(self.fields[index].name) == accessor
    }

    /// Whether the setter of the field at `index` is switched on and named
    /// `accessor`.
    pub open spec fn is_setter(self, index: int, accessor: Seq<char>) -> bool {
        self.fields[index].kind.has_setter() && setter_name(self.fields[index].name) == accessor
    }

    /// The first field from `from` on whose getter is `accessor`.
    pub open spec fn getter_from(self, accessor: Seq<char>, from: int) -> Option<int>
        decreases self.fields.len() - from,
    {
        if from < 0 || from >= self.fields.len() {
            None
        } else if self.is_getter(from, accessor) {
            Some(from)
        } else {
            self.getter_from(accessor, from + 1)
        }
    }

    /// The first field from `from` on whose setter is `accessor`.
    pub open spec fn setter_from(self, accessor: Seq<char>, from: int) -> Option<int>
        decreases self.fields.len() - from,
    {
        if from < 0 || from >= self.fields.len() {
            None
        } else if self.is_setter(from, accessor) {
            Some(from)
        } else {
            self.setter_from(accessor, from + 1)
        }
    }

    /// The first field from `from` on that is named `name`.
    pub open spec fn field_from(self, name: Seq<char>, from: int) -> Option<int>
        decreases self.fields.len() - from,
    {
        if from < 0 || from >= self.fields.len() {
            None
        } else if self.fields[from].name == name {
            Some(from)
        } else {
            self.field_from(name, from + 1)
        }
    }
}

impl View for Record {
    type V = RecordView;

    closed spec fn view(&self) -> RecordView {
        RecordView {
            fields: Seq::new(self.slots@.len(), |i: int| self.slots@[i].info@),
            values: Seq::new(self.slots@.len(), |i: int| self.slots@[i].value@),
        }
    }
}

impl Record {
    /// A value of the struct `input` declares, from the values of its fields
    /// in declaration order. The declaration must be one that accessors can be
    /// planned for, and the values as many as the fields.
    pub fn new(input: &DeriveInput, values: Vec<SqlValue>) -> (r: Result<Record, DeriveError>)
        ensures
            match r {
                Ok(record) => collected(*input) == Ok::<Seq<FieldInfoView>, DeriveError>(
                    record@.fields,
                ) && record@.values == values_view(values@) && record@.fields.len()
                    == values@.len(),
                Err(e) => match collected(*input) {
                    Err(reason) => e == reason,
                    Ok(fields) => e == DeriveError::NotSupported && fields.len() != values@.len(),
                },
            },
    {
        let infos = match collect_field_info(input) {
            Err(e) => {
                return Err(e);
            },
            Ok(infos) => infos,
        };
        if infos.len() != values.len() {
            return Err(DeriveError::NotSupported);
        }
        let mut slots: Vec<Slot> = Vec::new();
        let mut i: usize = 0;
        while i < infos.len()
            invariant
                infos@.len() == values@.len(),
                i <= infos@.len(),
                slots@.len() == i,
                forall|k: int|
                    0 <= k < i ==> (#[trigger] slots@[k]).info == infos@[k] && slots@[k].value
                        == values@[k],
            decreases infos@.len() - i,
        {
            slots.push(Slot { info: infos[i].clone(), value: values[i].clone() });
            i += 1;
        }
        let record = Record { slots };
        proof {
            assert(record@.fields =~= infos_view(infos@));
            assert(record@.values =~= values_view(values@));
        }
        Ok(record)
    }

    /// Calls the getter named `accessor`. Gives nothing where no getter of
    /// that name is switched on.
    pub fn get(&self, accessor: &str) -> (r: Option<SqlValue>)
        ensures
            match self@.getter_from(accessor@, 0) {
                Some(index) => r matches Some(value) && value@ == self@.values[index],
                None => r is None,
            },
    {
        let mut i: usize = 0;
        while i < self.slots.len()
            invariant
                i <= self.slots@.len(),
                self@.getter_from(accessor@, 0) == self@.getter_from(accessor@, i as int),
            decreases self.slots@.len() - i,
        {
            let info = &self.slots[i].info;
            if info.kind.generates_getter() {
                let name = String::from_str("get_").concat(info.name.as_str());
                if same_text(name.as_str(), accessor) {
                    return Some(self.slots[i].value.clone());
                }
            }
            i += 1;
        }
        None
    }

    /// Calls the setter named `accessor` with `value`. Returns whether a
    /// setter of that name is switched on; where none is, nothing changes.
    pub fn set(&mut self, accessor: &str, value: SqlValue) -> (done: bool)
        ensures
            match old(self)@.setter_from(accessor@, 0) {
                Some(index) => done && final(self)@ == (RecordView {
                    values: old(self)@.values.update(index, value@),
                    ..old(self)@
                }),
                None => !done && final(self)@ == old(self)@,
            },
    {
        let mut i: usize = 0;
        while i < self.slots.len()
            invariant
                *self == *old(self),
                i <= self.slots@.len(),
                self@.setter_from(accessor@, 0) == self@.setter_from(accessor@, i as int),
            decreases self.slots@.len() - i,
        {
            let found = {
                let info = &self.slots[i].info;
                info.kind.generates_setter() && same_text(
                    String::from_str("set_").concat(info.name.as_str()).as_str(),
                    accessor,
                )
            };
            if found {
                let ghost before = self@;
                let info = self.slots[i].info.clone();
                self.slots.set(i, Slot { info, value });
                assert(self@.fields =~= before.fields);
                assert(self@.values =~= before.values.update(i as int, value@));
                return true;
            }
            i += 1;
        }
        false
    }

    /// Reads the field named `name`, past its accessors.
    pub fn field(&self, name: &str) -> (r: Option<SqlValue>)
        ensures
            match self@.field_from(name@, 0) {
                Some(index) => r matches Some(value) && value@ == self@.values[index],
                None => r is None,
            },
    {
        let mut i: usize = 0;
        while i < self.slots.len()
            invariant
                i <= self.slots@.len(),
                self@.field_from(name@, 0) == self@.field_from(name@, i as int),
            decreases self.slots@.len() - i,
        {
            if same_text(self.slots[i].info.name.as_str(), name) {
                return Some(self.slots[i].value.clone());
            }
            i += 1;
        }
        None
    }

    /// Writes the field named `name`, past its accessors. Returns whether
    /// there is such a field.
    pub fn set_field(&mut self, name: &str, value: SqlValue) -> (done: bool)
        ensures
            match old(self)@.field_from(name@, 0) {
                Some(index) => done && final(self)@ == (RecordView {
                    values: old(self)@.values.update(index, value@),
                    ..old(self)@
                }),
                None => !done && final(self)@ == old(self)@,
            },
    {
        let mut i: usize = 0;
        while i < self.slots.len()
            invariant
                *self == *old(self),
                i <= self.slots@.len(),
                self@.field_from(name@, 0) == self@.field_from(name@, i as int),
            decreases self.slots@.len() - i,
        {
            if same_text(self.slots[i].info.name.as_str(), name) {
                let ghost before = self@;
                let info = self.slots[i].info.clone();
                self.slots.set(i, Slot { info, value });
                assert(self@.fields =~= before.fields);
                assert(self@.values =~= before.values.update(i as int, value@));
                return true;
            }
            i += 1;
        }
        false
    }
}

/// A field whose accessors are suppressed is reached by no accessor, whatever
/// its name.
pub proof fn lemma_suppressed_field_is_unreachable(
    record: RecordView,
    index: int,
    accessor: Seq<char>,
)
    requires
        0 <= index < record.fields.len(),
        record.fields[index].kind == PropertyKind::Suppressed,
    ensures
        !record.is_getter(index, accessor),
        !record.is_setter(index, accessor),
{
}

} // verus!
