use crate::repository::catalog::{
    lemma_add_wf, lemma_delete_by_name_wf, lemma_delete_wf, Catalog,
};
use crate::repository::dish::{dish_of, Dish, DishView};
use crate::repository::error::{view_of, RepoError};
use crate::repository::id_allocator::IdAllocator;
use crate::repository::nutrition_api_client::NutritionInformation;
use std::collections::HashMap;
use vstd::hash_map::StringHashMap;
use vstd::prelude::*;

verus! {

/// What creating a dish answers: the name must be free, and the nutrition
/// lookup must have delivered; then the dish gets the next identifier.
pub open spec fn create_dish_result(
    dishes: Catalog<DishView>,
    name: Seq<char>,
    data: Result<NutritionInformation, RepoError>,
) -> Result<i32, RepoError> {
    if dishes.by_name.contains_key(name) {
        Err(RepoError::DuplicateName)
    } else {
        match data {
            Ok(_) => Ok(dishes.next_id()),
            Err(error) => Err(error),
        }
    }
}

/// The dishes after creating one: the new dish is added on success, and
/// nothing changes on failure.
pub open spec fn create_dish(
    dishes: Catalog<DishView>,
    name: Seq<char>,
    data: Result<NutritionInformation, RepoError>,
) -> Catalog<DishView> {
    match create_dish_result(dishes, name, data) {
        Ok(id) => dishes.add(dish_of(id, name, data->Ok_0)),
        Err(_) => dishes,
    }
}

/// The dishes of a map, each by its view.
pub open spec fn dish_views(dishes: Map<i32, Dish>) -> Map<i32, DishView> {
    dishes.map_values(|dish: Dish| dish@)
}

/// The store of dishes: each dish by its identifier, and each identifier by
/// the name of its dish.
pub struct DishRepository {
    ids: IdAllocator,
    by_id: HashMap<i32, Dish>,
    by_name: StringHashMap<i32>,
}

impl View for DishRepository {
    type V = Catalog<DishView>;

    closed spec fn view(&self) -> Catalog<DishView> {
        Catalog {
            counter: self.ids.last_issued(),
            by_id: dish_views(self.by_id@),
            by_name: self.by_name@,
        }
    }
}

impl DishRepository {
    /// A store without dishes.
    pub fn new() -> (repo: Self)
        ensures
            repo@ == Catalog::<DishView>::empty(),
            repo@.wf(),
    {
        let repo = DishRepository {
            ids: IdAllocator::new(),
            by_id: HashMap::new(),
            by_name: StringHashMap::new(),
        };
        assert(repo@ =~= Catalog::<DishView>::empty());
        repo
    }

    /// Whether an identifier is left for a new dish.
    pub fn has_room(&self) -> (room: bool)
        ensures
            room == self@.has_room(),
    {
        !self.ids.is_exhausted()
    }

    /// Whether a dish has this name.
    pub fn contains_name(&self, name: &str) -> (found: bool)
        ensures
            found == self@.by_name.contains_key(name@),
    {
        self.by_name.contains_key(name)
    }

    /// Whether a dish has this identifier.
    pub fn contains_id(&self, id: i32) -> (found: bool)
        ensures
            found == self@.by_id.contains_key(id),
    {
        self.by_id.contains_key(&id)
    }

    /// Stores a new dish named `name`, with the amounts that the nutrition
    /// lookup `data` delivered, and answers its identifier.
    ///
    /// Fails with `DuplicateName` where a dish has that exact name, else
    /// with the failure of the lookup where it has one. A failure changes
    /// nothing.
    pub fn create(&mut self, name: String, data: Result<NutritionInformation, RepoError>) -> (result:
        Result<i32, RepoError>)
        requires
            old(self)@.wf(),
            create_dish_result(old(self)@, name@, data) is Ok ==> old(self)@.has_room(),
        ensures
            result == create_dish_result(old(self)@, name@, data),
            final(self)@ == create_dish(old(self)@, name@, data),
            final(self)@.wf(),
    {
        if self.by_name.contains_key(name.as_str()) {
            return Err(RepoError::DuplicateName);
        }
        match data {
            Err(error) => Err(error),
            Ok(facts) => {
                let id = self.ids.next();
                let dish = Dish::new(id, name.clone(), facts);
                proof {
                    lemma_add_wf(old(self)@, dish@);
                }
                self.by_id.insert(id, dish);
                self.by_name.insert(name, id);
                assert(self@ =~= old(self)@.add(dish@));
                Ok(id)
            },
        }
    }

    /// The dish with this identifier, or `NotFound`.
    pub fn get_by_id(&self, id: i32) -> (result: Result<Dish, RepoError>)
        ensures
            view_of(result) == self@.get_by_id(id),
    {
        match self.by_id.get(&id) {
            Some(dish) => Ok(dish.clone()),
            None => Err(RepoError::NotFound),
        }
    }

    /// The dish with this exact name, or `NotFound`.
    pub fn get_by_name(&self, name: &str) -> (result: Result<Dish, RepoError>)
        ensures
            view_of(result) == self@.get_by_name(name@),
    {
        match self.by_name.get(name) {
            Some(id) => self.get_by_id(*id),
            None => Err(RepoError::NotFound),
        }
    }

    /// A copy of all dishes, by identifier.
    pub fn list_all(&self) -> (snapshot: HashMap<i32, Dish>)
        ensures
            dish_views(snapshot@) == self@.by_id,
    {
        self.by_id.clone()
    }

    /// Removes the dish with this identifier from both indices and answers
    /// the identifier, or fails with `NotFound` and changes nothing.
    pub fn delete_by_id(&mut self, id: i32) -> (result: Result<i32, RepoError>)
        requires
            old(self)@.wf(),
        ensures
            result == old(self)@.delete_by_id_result(id),
            final(self)@ == old(self)@.delete_by_id(id),
            final(self)@.wf(),
    {
        proof {
            lemma_delete_wf(old(self)@, id);
        }
        match self.by_id.remove(&id) {
            Some(dish) => {
                self.by_name.remove(dish.name().as_str());
                assert(self@ =~= old(self)@.delete_by_id(id));
                Ok(id)
            },
            None => {
                assert(self@ =~= old(self)@);
                Err(RepoError::NotFound)
            },
        }
    }

    /// Removes the dish with this exact name from both indices and answers
    /// its identifier, or fails with `NotFound` and changes nothing.
    pub fn delete_by_name(&mut self, name: &str) -> (result: Result<i32, RepoError>)
        requires
            old(self)@.wf(),
        ensures
            result == old(self)@.delete_by_name_result(name@),
            final(self)@ == old(self)@.delete_by_name(name@),
            final(self)@.wf(),
    {
        proof {
            lemma_delete_by_name_wf(old(self)@, name@);
        }
        let found = match self.by_name.get(name) {
            Some(id) => Some(*id),
            None => None,
        };
        match found {
            Some(id) => {
                self.by_name.remove(name);
                self.by_id.remove(&id);
                assert(self@ =~= old(self)@.delete_by_name(name@));
                Ok(id)
            },
            None => Err(RepoError::NotFound),
        }
    }
}

} // verus!
