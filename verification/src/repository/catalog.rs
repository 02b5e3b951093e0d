use crate::repository::dish::DishView;
use crate::repository::error::RepoError;
use crate::repository::meal::MealView;
use vstd::prelude::*;

verus! {

/// What the indices need to know of an entity.
pub trait Entity {
    /// The identifier the entity is stored under.
    spec fn id(self) -> i32;

    /// The name the entity is found by.
    spec fn name(self) -> Seq<char>;
}

impl Entity for DishView {
    open spec fn id(self) -> i32 {
        self.id
    }

    open spec fn name(self) -> Seq<char> {
        self.name
    }
}

impl Entity for MealView {
    open spec fn id(self) -> i32 {
        self.id
    }

    open spec fn name(self) -> Seq<char> {
        self.name
    }
}

/// The entities of one kind: the last identifier issued, the entities by
/// identifier, and the identifiers by name.
#[verifier::ext_equal]
pub struct Catalog<E> {
    pub counter: i32,
    pub by_id: Map<i32, E>,
    pub by_name: Map<Seq<char>, i32>,
}

impl<E: Entity> Catalog<E> {
    /// No entity, and no identifier issued yet.
    pub open spec fn empty() -> Self {
        Catalog { counter: 0, by_id: Map::empty(), by_name: Map::empty() }
    }

    /// The two indices agree, and every identifier in use has been issued.
    ///
    /// Each stored entity stands under its own identifier and is found by
    /// its own name; each name leads to an entity that bears it. So no two
    /// entities share a name, and neither index has an entry that the other
    /// lacks.
    pub open spec fn wf(self) -> bool {
        &&& 0 <= self.counter
        &&& forall|id: i32| #[trigger]
            self.by_id.contains_key(id) ==> {
                &&& 0 < id <= self.counter
                &&& self.by_id[id].id() == id
                &&& self.by_name.contains_key(self.by_id[id].name())
                &&& self.by_name[self.by_id[id].name()] == id
            }
        &&& forall|name: Seq<char>| #[trigger]
            self.by_name.contains_key(name) ==> {
                &&& self.by_id.contains_key(self.by_name[name])
                &&& self.by_id[self.by_name[name]].name() == name
            }
    }

    /// Whether an identifier is left to issue.
    pub open spec fn has_room(self) -> bool {
        self.counter < i32::MAX
    }

    /// The identifier that the next new entity gets.
    pub open spec fn next_id(self) -> i32 {
        (self.counter + 1) as i32
    }

    /// The lookup by identifier.
    pub open spec fn get_by_id(self, id: i32) -> Result<E, RepoError> {
        if self.by_id.contains_key(id) {
            Ok(self.by_id[id])
        } else {
            Err(RepoError::NotFound)
        }
    }

    /// The lookup by name: from the name to the identifier, from there to
    /// the entity.
    pub open spec fn get_by_name(self, name: Seq<char>) -> Result<E, RepoError> {
        if self.by_name.contains_key(name) {
            self.get_by_id(self.by_name[name])
        } else {
            Err(RepoError::NotFound)
        }
    }

    /// The catalog with `entity` added under the next identifier.
    pub open spec fn add(self, entity: E) -> Self {
        Catalog {
            counter: self.next_id(),
            by_id: self.by_id.insert(self.next_id(), entity),
            by_name: self.by_name.insert(entity.name(), self.next_id()),
        }
    }

    /// The catalog with `entity` in the place of the one that has its
    /// identifier, found by the new name and no longer by the old one.
    pub open spec fn replace(self, entity: E) -> Self {
        Catalog {
            counter: self.counter,
            by_id: self.by_id.insert(entity.id(), entity),
            by_name: self.by_name.remove(self.by_id[entity.id()].name()).insert(
                entity.name(),
                entity.id(),
            ),
        }
    }

    /// What deleting by identifier answers.
    pub open spec fn delete_by_id_result(self, id: i32) -> Result<i32, RepoError> {
        if self.by_id.contains_key(id) {
            Ok(id)
        } else {
            Err(RepoError::NotFound)
        }
    }

    /// The catalog after deleting by identifier: the entity leaves both
    /// indices, or nothing changes where there is none.
    pub open spec fn delete_by_id(self, id: i32) -> Self {
        if self.by_id.contains_key(id) {
            Catalog {
                counter: self.counter,
                by_id: self.by_id.remove(id),
                by_name: self.by_name.remove(self.by_id[id].name()),
            }
        } else {
            self
        }
    }

    /// What deleting by name answers.
    pub open spec fn delete_by_name_result(self, name: Seq<char>) -> Result<i32, RepoError> {
        if self.by_name.contains_key(name) {
            Ok(self.by_name[name])
        } else {
            Err(RepoError::NotFound)
        }
    }

    /// The catalog after deleting by name: the entity leaves both indices,
    /// or nothing changes where there is none.
    pub open spec fn delete_by_name(self, name: Seq<char>) -> Self {
        if self.by_name.contains_key(name) {
            Catalog {
                counter: self.counter,
                by_id: self.by_id.remove(self.by_name[name]),
                by_name: self.by_name.remove(name),
            }
        } else {
            self
        }
    }
}

/// Adding an entity under the next identifier keeps a catalog well formed,
/// where the entity bears that identifier and its name is free.
pub proof fn lemma_add_wf<E: Entity>(catalog: Catalog<E>, entity: E)
    requires
        catalog.wf(),
        catalog.has_room(),
        entity.id() == catalog.next_id(),
        !catalog.by_name.contains_key(entity.name()),
    ensures
        catalog.add(entity).wf(),
{
    let after = catalog.add(entity);
    assert forall|id: i32| #[trigger] after.by_id.contains_key(id) implies {
        &&& 0 < id <= after.counter
        &&& after.by_id[id].id() == id
        &&& after.by_name.contains_key(after.by_id[id].name())
        &&& after.by_name[after.by_id[id].name()] == id
    } by {
        if id != catalog.next_id() {
            assert(catalog.by_id.contains_key(id));
        }
    }
    assert forall|name: Seq<char>| #[trigger] after.by_name.contains_key(name) implies {
        &&& after.by_id.contains_key(after.by_name[name])
        &&& after.by_id[after.by_name[name]].name() == name
    } by {
        if name != entity.name() {
            assert(catalog.by_name.contains_key(name));
        }
    }
}

/// Replacing an entity keeps a catalog well formed, where the identifier is
/// in use and the new name is the old one or free.
pub proof fn lemma_replace_wf<E: Entity>(catalog: Catalog<E>, entity: E)
    requires
        catalog.wf(),
        catalog.by_id.contains_key(entity.id()),
        entity.name() == catalog.by_id[entity.id()].name() || !catalog.by_name.contains_key(
            entity.name(),
        ),
    ensures
        catalog.replace(entity).wf(),
{
    let after = catalog.replace(entity);
    assert forall|id: i32| #[trigger] after.by_id.contains_key(id) implies {
        &&& 0 < id <= after.counter
        &&& after.by_id[id].id() == id
        &&& after.by_name.contains_key(after.by_id[id].name())
        &&& after.by_name[after.by_id[id].name()] == id
    } by {
        assert(catalog.by_id.contains_key(id));
        if id != entity.id() {
            assert(catalog.by_name.contains_key(catalog.by_id[id].name()));
        }
    }
    assert forall|name: Seq<char>| #[trigger] after.by_name.contains_key(name) implies {
        &&& after.by_id.contains_key(after.by_name[name])
        &&& after.by_id[after.by_name[name]].name() == name
    } by {
        if name != entity.name() {
            assert(catalog.by_name.contains_key(name));
        }
    }
}

/// Deleting keeps a catalog well formed, and deleting by the name of an
/// entity is deleting by its identifier.
pub proof fn lemma_delete_wf<E: Entity>(catalog: Catalog<E>, id: i32)
    requires
        catalog.wf(),
    ensures
        catalog.delete_by_id(id).wf(),
        catalog.by_id.contains_key(id) ==> catalog.delete_by_name(catalog.by_id[id].name())
            == catalog.delete_by_id(id),
{
    let after = catalog.delete_by_id(id);
    if catalog.by_id.contains_key(id) {
        let gone = catalog.by_id[id].name();
        assert forall|other: i32| #[trigger] after.by_id.contains_key(other) implies {
            &&& 0 < other <= after.counter
            &&& after.by_id[other].id() == other
            &&& after.by_name.contains_key(after.by_id[other].name())
            &&& after.by_name[after.by_id[other].name()] == other
        } by {
            assert(catalog.by_id.contains_key(other));
        }
        assert forall|name: Seq<char>| #[trigger] after.by_name.contains_key(name) implies {
            &&& after.by_id.contains_key(after.by_name[name])
            &&& after.by_id[after.by_name[name]].name() == name
        } by {
            assert(catalog.by_name.contains_key(name));
        }
        assert(catalog.by_name.contains_key(gone));
        assert(catalog.delete_by_name(gone) =~= after);
    }
}

/// Deleting by name keeps a catalog well formed.
pub proof fn lemma_delete_by_name_wf<E: Entity>(catalog: Catalog<E>, name: Seq<char>)
    requires
        catalog.wf(),
    ensures
        catalog.delete_by_name(name).wf(),
        catalog.by_name.contains_key(name) ==> catalog.delete_by_name(name) == catalog.delete_by_id(
            catalog.by_name[name],
        ),
{
    if catalog.by_name.contains_key(name) {
        let id = catalog.by_name[name];
        assert(catalog.by_id.contains_key(id));
        lemma_delete_wf(catalog, id);
    }
}

} // verus!
