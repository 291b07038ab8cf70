//! The repository contract and its in-memory backend.
//!
//! A repository holds the rows of one table, each under the identifier that
//! was assigned on its first insert. Its value is a map from raw identifiers
//! to entities; that no two live rows share an identifier is what being a map
//! means, and that every row carries the identifier it is stored under is the
//! repository's invariant.

use crate::id::{HasId, Id, Reference};
use std::collections::HashMap;
use vstd::prelude::*;

verus! {

broadcast use vstd::std_specs::hash::group_hash_axioms;

/// Why a repository operation failed.
#[derive(Clone, Copy, PartialEq, Eq, Structural, Debug)]
pub enum RepositoryError {
    /// An entity was added under an identifier that is already taken.
    Conflict,
    /// An entity without identifier was handed to `update`.
    MissingId,
    /// The backend could not carry the operation out.
    BackendFailure,
}

/// An entity that repositories store: it carries an identifier, and a copy of
/// it equals the original.
pub trait Entity: HasId + Clone {
    /// What `clone` hands out equals what it was handed.
    proof fn lemma_copy_is_equal(original: Self, copy: Self)
        requires
            cloned(original, copy),
        ensures
            copy == original,
    ;
}

/// Every row carries the identifier it is stored under.
pub open spec fn rows_carry_their_ids<T: HasId>(rows: Map<i32, T>) -> bool {
    forall|k: i32| #[trigger] rows.contains_key(k) ==> rows[k].id_view() == Some(Id(k))
}

/// Whether `out` is a full scan of `rows`: every row once, in some order.
pub open spec fn is_scan_of<T>(rows: Map<i32, T>, out: Seq<T>) -> bool {
    exists|keys: Seq<i32>|
        #![trigger keys.len()]
        keys.len() == out.len() && keys.no_duplicates() && keys.to_set() == rows.dom() && forall|
            i: int,
        |
            0 <= i < out.len() ==> rows[#[trigger] keys[i]] == out[i]
}

/// The rows of `rows` with `entity` put under its own identifier.
pub open spec fn replaced<T: HasId>(rows: Map<i32, T>, entity: T) -> Map<i32, T> {
    match entity.id_view() {
        Some(id) => rows.insert(id.0, entity),
        None => rows,
    }
}

/// Storage of the entities of one kind, whatever the backend.
///
/// A backend may fail on any operation; it then reports `BackendFailure` and
/// its rows are what they were. What an operation that succeeds returns and
/// does to the rows is the same for every backend.
pub trait Repository<T: Entity> {
    /// The rows, by raw identifier.
    spec fn rows(&self) -> Map<i32, T>;

    /// The invariant of the backend. It implies that every row carries the
    /// identifier it is stored under.
    spec fn wf(&self) -> bool;

    /// Whether the rows alone decide if `add` stores `entity`: `Some(true)`
    /// where the backend is bound to store it, `Some(false)` where it is bound
    /// to refuse it, and `None` where the backend may also fail on its own.
    spec fn decides_add(&self, entity: T) -> Option<bool>;

    /// Whether the reads of the backend cannot fail on their own: `get` and
    /// `get_all` then always answer from the rows.
    spec fn decides_reads(&self) -> bool;

    /// The invariant gives every row the identifier it is stored under.
    proof fn lemma_rows_carry_their_ids(&self)
        requires
            self.wf(),
        ensures
            rows_carry_their_ids(self.rows()),
    ;

    /// The row stored under `id`, if there is one.
    fn get(&self, id: Id) -> (r: Result<Option<T>, RepositoryError>)
        requires
            self.wf(),
        ensures
            self.decides_reads() ==> r is Ok,
            match r {
                Ok(Some(entity)) => self.rows().contains_key(id.0) && entity == self.rows()[id.0],
                Ok(None) => !self.rows().contains_key(id.0),
                Err(e) => e == RepositoryError::BackendFailure,
            },
    ;

    /// Stores a new row and returns its identifier. An entity that carries an
    /// identifier is stored under it unless it is taken; one that carries
    /// none is given an identifier that no row has.
    fn add(&mut self, entity: T) -> (r: Result<Id, RepositoryError>)
        requires
            old(self).wf(),
        ensures
            final(self).wf(),
            old(self).decides_add(entity) matches Some(stored) ==> (r is Ok) == stored,
            match r {
                Ok(id) => {
                    &&& !old(self).rows().contains_key(id.0)
                    &&& entity.id_view() matches Some(given) ==> given == id
                    &&& final(self).rows() == old(self).rows().insert(id.0, entity.with_id(id))
                },
                Err(RepositoryError::Conflict) => {
                    &&& entity.id_view() matches Some(given) && old(self).rows().contains_key(
                        given.0,
                    )
                    &&& final(self).rows() == old(self).rows()
                },
                Err(RepositoryError::MissingId) => false,
                Err(RepositoryError::BackendFailure) => final(self).rows() == old(self).rows(),
            },
    ;

    /// Removes the row stored under `id`. Returns whether there was one.
    fn delete(&mut self, id: Id) -> (r: Result<bool, RepositoryError>)
        requires
            old(self).wf(),
        ensures
            final(self).wf(),
            match r {
                Ok(removed) => removed == old(self).rows().contains_key(id.0) && final(self).rows()
                    == old(self).rows().remove(id.0),
                Err(e) => e == RepositoryError::BackendFailure && final(self).rows() == old(
                    self,
                ).rows(),
            },
    ;

    /// Replaces the row stored under the identifier of `entity`. Returns
    /// whether there was one. An entity without identifier is refused and
    /// nothing is touched.
    fn update(&mut self, entity: T) -> (r: Result<bool, RepositoryError>)
        requires
            old(self).wf(),
        ensures
            final(self).wf(),
            entity.id_view() is None ==> r == Err::<bool, RepositoryError>(
                RepositoryError::MissingId,
            ) && final(self).rows() == old(self).rows(),
            match r {
                Ok(updated) => {
                    &&& entity.id_view() matches Some(id)
                    &&& updated == old(self).rows().contains_key(id.0)
                    &&& final(self).rows() == if updated {
                        replaced(old(self).rows(), entity)
                    } else {
                        old(self).rows()
                    }
                },
                Err(RepositoryError::MissingId) => entity.id_view() is None && final(self).rows()
                    == old(self).rows(),
                Err(RepositoryError::Conflict) => false,
                Err(RepositoryError::BackendFailure) => final(self).rows() == old(self).rows(),
            },
    ;

    /// Every row, in no particular order.
    fn get_all(&self) -> (r: Result<Vec<T>, RepositoryError>)
        requires
            self.wf(),
        ensures
            self.decides_reads() ==> r is Ok,
            match r {
                Ok(all) => is_scan_of(self.rows(), all@),
                Err(e) => e == RepositoryError::BackendFailure,
            },
    ;
}

impl<T: Entity> Reference<T> {
    /// Looks the target up. A reference may dangle: the lookup then finds
    /// nothing, which is no error. The lookup fails only where the
    /// repository's own read does.
    pub fn resolve<R: Repository<T>>(&self, repository: &R) -> (r: Result<
        Option<T>,
        RepositoryError,
    >)
        requires
            repository.wf(),
        ensures
            repository.decides_reads() ==> r is Ok,
            match r {
                Ok(Some(entity)) => repository.rows().contains_key(self.target().0) && entity
                    == repository.rows()[self.target().0],
                Ok(None) => !repository.rows().contains_key(self.target().0),
                Err(e) => e == RepositoryError::BackendFailure,
            },
    {
        repository.get(self.id())
    }
}

/// Whether `k` is the lowest identifier from `from` upwards that no row has.
pub open spec fn is_lowest_free<T>(rows: Map<i32, T>, from: int, k: int) -> bool {
    &&& from <= k <= i32::MAX
    &&& !rows.contains_key(k as i32)
    &&& forall|j: int| from <= j < k ==> rows.contains_key(#[trigger] (j as i32))
}

/// Whether every identifier from `from` upwards is taken.
pub open spec fn none_free<T>(rows: Map<i32, T>, from: int) -> bool {
    forall|j: int| from <= j <= i32::MAX ==> rows.contains_key(#[trigger] (j as i32))
}

/// The reference backend: rows in an associative map, with the identifier the
/// search for a free one starts at.
pub struct InMemoryRepository<T: Entity> {
    data: HashMap<i32, T>,
    next_id: i32,
}

impl<T: Entity> InMemoryRepository<T> {
    /// The rows, by raw identifier.
    pub closed spec fn contents(&self) -> Map<i32, T> {
        self.data@
    }

    /// Where the search for a free identifier starts: at the identifier that
    /// was assigned last.
    pub closed spec fn search_start(&self) -> int {
        self.next_id as int
    }

    /// An empty repository. The first identifier it assigns is 0.
    pub fn new() -> (repository: InMemoryRepository<T>)
        ensures
            repository.wf(),
            repository.rows() == Map::<i32, T>::empty(),
            repository.search_start() == 0,
    {
        InMemoryRepository::<T> { data: HashMap::new(), next_id: 0 }
    }

    /// An empty repository whose search for a free identifier starts at
    /// `first`.
    pub fn starting_at(first: i32) -> (repository: InMemoryRepository<T>)
        ensures
            repository.wf(),
            repository.rows() == Map::<i32, T>::empty(),
            repository.search_start() == first,
    {
        InMemoryRepository::<T> { data: HashMap::new(), next_id: first }
    }

    /// A repository that holds `elements` under the identifiers 0, 1, 2 and so
    /// on, in their order. Identifiers the elements may carry are overwritten.
    pub fn from(elements: Vec<T>) -> (repository: InMemoryRepository<T>)
        requires
            elements@.len() <= i32::MAX,
        ensures
            repository.wf(),
            repository.search_start() == elements@.len(),
            repository.rows().dom() == Set::new(|k: i32| 0 <= k < elements@.len()),
            forall|k: i32|
                0 <= k < elements@.len() ==> #[trigger] repository.rows()[k] == elements@[k as int].with_id(
                    Id(k),
                ),
    {
        let mut repository = InMemoryRepository::<T>::new();
        let mut elements = elements;
        let ghost given = elements@;
        let n = elements.len();
        // The elements are taken from the back, so that each is moved out of
        // the list once.
        let mut remaining: usize = n;
        while remaining > 0
            invariant
                n == given.len(),
                n <= i32::MAX,
                remaining <= n,
                elements@ == given.take(remaining as int),
                repository.data@.dom() == Set::new(|k: i32| remaining <= k < n),
                forall|k: i32|
                    remaining <= k < n ==> #[trigger] repository.data@[k] == given[k as int].with_id(
                        Id(k),
                    ),
            decreases remaining,
        {
            let mut element = elements.pop().unwrap();
            remaining -= 1;
            let key: i32 = remaining as i32;
            element.set_id(Id(key));
            repository.data.insert(key, element);
            assert(repository.data@.dom() =~= Set::new(|k: i32| remaining <= k < n));
        }
        repository.next_id = n as i32;
        proof {
            assert(repository.data@.dom() =~= Set::new(|k: i32| 0 <= k < given.len()));
            assert forall|k: i32| #[trigger] repository.data@.contains_key(k) implies repository.data@[k].id_view()
                == Some(Id(k)) by {
                T::lemma_with_id_carries(given[k as int], Id(k));
            }
        }
        repository
    }

    /// A repository that holds a copy of each of `elements` under the
    /// identifiers 0, 1, 2 and so on, in their order. Identifiers the elements
    /// may carry are overwritten.
    pub fn from_slice(elements: &[T]) -> (repository: InMemoryRepository<T>)
        requires
            elements@.len() <= i32::MAX,
        ensures
            repository.wf(),
            repository.search_start() == elements@.len(),
            repository.rows().dom() == Set::new(|k: i32| 0 <= k < elements@.len()),
            forall|k: i32|
                0 <= k < elements@.len() ==> #[trigger] repository.rows()[k] == elements@[k as int].with_id(
                    Id(k),
                ),
    {
        let mut repository = InMemoryRepository::<T>::new();
        let n = elements.len();
        let mut i: usize = 0;
        while i < n
            invariant
                n == elements@.len(),
                n <= i32::MAX,
                i <= n,
                repository.next_id == 0,
                repository.data@.dom() == Set::new(|k: i32| 0 <= k < i),
                forall|k: i32|
                    0 <= k < i ==> #[trigger] repository.data@[k] == elements@[k as int].with_id(
                        Id(k),
                    ),
            decreases n - i,
        {
            let mut element = elements[i].clone();
            proof {
                T::lemma_copy_is_equal(elements@[i as int], element);
            }
            let key: i32 = i as i32;
            element.set_id(Id(key));
            repository.data.insert(key, element);
            i += 1;
            assert(repository.data@.dom() =~= Set::new(|k: i32| 0 <= k < i));
        }
        repository.next_id = n as i32;
        proof {
            assert forall|k: i32| #[trigger] repository.data@.contains_key(k) implies repository.data@[k].id_view()
                == Some(Id(k)) by {
                T::lemma_with_id_carries(elements@[k as int], Id(k));
            }
        }
        repository
    }

    /// The lowest identifier from the search start upwards that no row has.
    /// The search start moves to it.
    fn get_unoccupied_id(&mut self) -> (r: Option<i32>)
        ensures
            final(self).data == old(self).data,
            match r {
                Some(k) => is_lowest_free(old(self).data@, old(self).next_id as int, k as int)
                    && final(self).next_id == k,
                None => none_free(old(self).data@, old(self).next_id as int) && final(self).next_id
                    == old(self).next_id,
            },
    {
        let mut candidate: i32 = self.next_id;
        loop
            invariant
                self.data == old(self).data,
                self.next_id == old(self).next_id,
                self.next_id <= candidate,
                forall|j: int|
                    self.next_id <= j < candidate ==> self.data@.contains_key(#[trigger] (j as i32)),
            decreases i32::MAX - candidate,
        {
            if !self.data.contains_key(&candidate) {
                self.next_id = candidate;
                return Some(candidate);
            }
            if candidate == i32::MAX {
                return None;
            }
            candidate += 1;
        }
    }
}

impl<T: Entity> Repository<T> for InMemoryRepository<T> {
    open spec fn rows(&self) -> Map<i32, T> {
        self.contents()
    }

    open spec fn wf(&self) -> bool {
        rows_carry_their_ids(self.contents())
    }

    /// The rows always decide: an entity that carries an identifier is stored
    /// unless the identifier is taken, one that carries none unless no
    /// identifier is left from the search start upwards.
    open spec fn decides_add(&self, entity: T) -> Option<bool> {
        Some(
            match entity.id_view() {
                Some(given) => !self.contents().contains_key(given.0),
                None => !none_free(self.contents(), self.search_start()),
            },
        )
    }

    /// Reading from memory cannot fail.
    open spec fn decides_reads(&self) -> bool {
        true
    }

    proof fn lemma_rows_carry_their_ids(&self) {
    }

    /// Never fails.
    fn get(&self, id: Id) -> (r: Result<Option<T>, RepositoryError>)
        ensures
            r is Ok,
    {
        match self.data.get(&id.0) {
            Some(entity) => {
                let copy = entity.clone();
                proof {
                    T::lemma_copy_is_equal(*entity, copy);
                }
                Ok(Some(copy))
            },
            None => Ok(None),
        }
    }

    /// An entity without identifier is given the lowest free identifier from
    /// the search start upwards, and the search start moves there. The insert
    /// fails only where no identifier is left.
    fn add(&mut self, entity: T) -> (r: Result<Id, RepositoryError>)
        ensures
            match entity.id_view() {
                Some(given) => {
                    &&& final(self).search_start() == old(self).search_start()
                    &&& r == if old(self).rows().contains_key(given.0) {
                        Err::<Id, RepositoryError>(RepositoryError::Conflict)
                    } else {
                        Ok(given)
                    }
                },
                None => match r {
                    Ok(id) => is_lowest_free(
                        old(self).rows(),
                        old(self).search_start(),
                        id.0 as int,
                    ) && final(self).search_start() == id.0,
                    Err(e) => e == RepositoryError::BackendFailure && none_free(
                        old(self).rows(),
                        old(self).search_start(),
                    ) && final(self).search_start() == old(self).search_start(),
                },
            },
    {
        let mut entity = entity;
        let ghost given = entity;
        let key = match entity.get_id() {
            Some(id) => {
                if self.data.contains_key(&id.0) {
                    return Err(RepositoryError::Conflict);
                }
                proof {
                    T::lemma_with_id_same(entity, id);
                }
                id.0
            },
            None => match self.get_unoccupied_id() {
                Some(key) => key,
                None => {
                    return Err(RepositoryError::BackendFailure);
                },
            },
        };
        entity.set_id(Id(key));
        proof {
            T::lemma_with_id_carries(given, Id(key));
        }
        self.data.insert(key, entity);
        Ok(Id(key))
    }

    /// Never fails.
    fn delete(&mut self, id: Id) -> (r: Result<bool, RepositoryError>)
        ensures
            r is Ok,
            final(self).search_start() == old(self).search_start(),
    {
        Ok(self.data.remove(&id.0).is_some())
    }

    /// Fails only for an entity without identifier.
    fn update(&mut self, entity: T) -> (r: Result<bool, RepositoryError>)
        ensures
            entity.id_view() is Some ==> r is Ok,
            final(self).search_start() == old(self).search_start(),
    {
        let key = match entity.get_id() {
            Some(id) => id.0,
            None => {
                return Err(RepositoryError::MissingId);
            },
        };
        if self.data.contains_key(&key) {
            self.data.insert(key, entity);
            Ok(true)
        } else {
            Ok(false)
        }
    }

    /// Never fails.
    fn get_all(&self) -> (r: Result<Vec<T>, RepositoryError>)
        ensures
            r is Ok,
    {
        let mut all: Vec<T> = Vec::new();
        let ghost mut keys: Seq<i32> = Seq::empty();
        for key in it: self.data.keys()
            invariant
                it.seq().unref().to_set() == self.data@.dom(),
                it.seq().unref().no_duplicates(),
                keys == it.seq().unref().take(it.index() as int),
                keys.no_duplicates(),
                it.index() == it.seq().len() ==> keys.to_set() == self.data@.dom(),
                all@.len() == it.index(),
                forall|i: int| 0 <= i < all@.len() ==> self.data@[#[trigger] keys[i]] == all@[i],
        {
            assert(it.seq().unref()[it.index() as int] == *key);
            assert(it.seq().unref().to_set().contains(*key));
            let entity = self.data.get(key).unwrap();
            let copy = entity.clone();
            proof {
                T::lemma_copy_is_equal(*entity, copy);
            }
            all.push(copy);
            proof {
                keys = keys.push(*key);
            }
            assert(keys == it.seq().unref().take(it.index() + 1));
            assert(it.index() + 1 == it.seq().len() ==> it.seq().unref().take(it.index() + 1)
                == it.seq().unref());
        }
        assert(keys.len() == all@.len());
        Ok(all)
    }
}

/// What adding an entity without identifier comes to: the identifier it is
/// given is the identifier of no row present before, and the row found under
/// it afterwards is the entity with nothing changed but the identifier.
pub proof fn lemma_added_row<T: HasId>(
    before: Map<i32, T>,
    after: Map<i32, T>,
    entity: T,
    id: Id,
)
    requires
        rows_carry_their_ids(before),
        entity.id_view() is None,
        !before.contains_key(id.0),
        after == before.insert(id.0, entity.with_id(id)),
    ensures
        forall|k: i32| #[trigger] before.contains_key(k) ==> before[k].id_view() != Some(id),
        after.contains_key(id.0),
        after[id.0] == entity.with_id(id),
        after[id.0].id_view() == Some(id),
        rows_carry_their_ids(after),
{
    T::lemma_with_id_carries(entity, id);
}

/// No two live rows share an identifier: rows stored under different keys
/// carry different identifiers.
pub proof fn lemma_live_ids_unique<T: HasId>(rows: Map<i32, T>, a: i32, b: i32)
    requires
        rows_carry_their_ids(rows),
        rows.contains_key(a),
        rows.contains_key(b),
        a != b,
    ensures
        rows[a].id_view() != rows[b].id_view(),
{
}

/// In a full scan of a repository no two entries share an identifier.
pub proof fn lemma_scan_ids_unique<T: HasId>(rows: Map<i32, T>, out: Seq<T>, i: int, j: int)
    requires
        rows_carry_their_ids(rows),
        is_scan_of(rows, out),
        0 <= i < out.len(),
        0 <= j < out.len(),
        i != j,
    ensures
        out[i].id_view() is Some,
        out[i].id_view() != out[j].id_view(),
{
    let keys = choose|keys: Seq<i32>|
        #![trigger keys.len()]
        keys.len() == out.len() && keys.no_duplicates() && keys.to_set() == rows.dom() && forall|
            k: int,
        |
            0 <= k < out.len() ==> rows[#[trigger] keys[k]] == out[k];
    assert(keys.to_set().contains(keys[i]));
    assert(keys.to_set().contains(keys[j]));
    assert(rows[keys[i]] == out[i]);
    assert(rows[keys[j]] == out[j]);
}

/// Adding and deleting rows keeps the invariant: whatever the sequence of such
/// operations, every row carries the identifier it is stored under.
pub proof fn lemma_add_delete_keep_ids<T: HasId>(rows: Map<i32, T>, entity: T, id: Id)
    requires
        rows_carry_their_ids(rows),
    ensures
        rows_carry_their_ids(rows.insert(id.0, entity.with_id(id))),
        rows_carry_their_ids(rows.remove(id.0)),
{
    T::lemma_with_id_carries(entity, id);
}

/// What an insert or a delete that succeeded has done to the rows.
pub enum Change<T> {
    /// `entity` was stored under `id`.
    Added { id: Id, entity: T },
    /// The row under `id` was removed, if there was one.
    Deleted { id: Id },
}

/// The rows after a sequence of inserts and deletes.
pub open spec fn changed<T: HasId>(rows: Map<i32, T>, changes: Seq<Change<T>>) -> Map<i32, T>
    decreases changes.len(),
{
    if changes.len() == 0 {
        rows
    } else {
        let before = changed(rows, changes.drop_last());
        match changes.last() {
            Change::Added { id, entity } => before.insert(id.0, entity.with_id(id)),
            Change::Deleted { id } => before.remove(id.0),
        }
    }
}

/// After any sequence of inserts and deletes no two live rows share an
/// identifier: every row carries the identifier it is stored under.
pub proof fn lemma_changes_keep_ids_unique<T: HasId>(
    rows: Map<i32, T>,
    changes: Seq<Change<T>>,
    a: i32,
    b: i32,
)
    requires
        rows_carry_their_ids(rows),
        changed(rows, changes).contains_key(a),
        changed(rows, changes).contains_key(b),
        a != b,
    ensures
        rows_carry_their_ids(changed(rows, changes)),
        changed(rows, changes)[a].id_view() != changed(rows, changes)[b].id_view(),
{
    lemma_changes_keep_ids(rows, changes);
}

proof fn lemma_changes_keep_ids<T: HasId>(rows: Map<i32, T>, changes: Seq<Change<T>>)
    requires
        rows_carry_their_ids(rows),
    ensures
        rows_carry_their_ids(changed(rows, changes)),
    decreases changes.len(),
{
    if changes.len() > 0 {
        lemma_changes_keep_ids(rows, changes.drop_last());
        match changes.last() {
            Change::Added { id, entity } => {
                lemma_add_delete_keep_ids(changed(rows, changes.drop_last()), entity, id);
            },
            Change::Deleted { id } => {},
        }
    }
}

} // verus!
