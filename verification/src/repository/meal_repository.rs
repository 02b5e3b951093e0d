use crate::repository::catalog::{
    lemma_add_wf, lemma_delete_by_name_wf, lemma_delete_wf, lemma_replace_wf, Catalog,
};
use crate::repository::dish::DishView;
use crate::repository::dish_repository::DishRepository;
use crate::repository::error::{view_of, RepoError};
use crate::repository::id_allocator::IdAllocator;
use crate::repository::meal::{meal_of, Meal, MealView};
use std::collections::HashMap;
use vstd::hash_map::StringHashMap;
use vstd::prelude::*;

verus! {

/// Whether each of the three identifiers is that of a stored dish.
pub open spec fn references_resolve(
    dishes: Catalog<DishView>,
    appetizer: i32,
    main: i32,
    dessert: i32,
) -> bool {
    &&& dishes.by_id.contains_key(appetizer)
    &&& dishes.by_id.contains_key(main)
    &&& dishes.by_id.contains_key(dessert)
}

/// The meal that `id`, `name` and the three referenced dishes make, with the
/// dishes as they are now.
pub open spec fn meal_from(
    dishes: Catalog<DishView>,
    id: i32,
    name: Seq<char>,
    appetizer: i32,
    main: i32,
    dessert: i32,
) -> MealView {
    meal_of(id, name, dishes.by_id[appetizer], dishes.by_id[main], dishes.by_id[dessert])
}

/// What creating a meal answers: the name must be free and the three dishes
/// must exist; then the meal gets the next identifier.
pub open spec fn create_meal_result(
    meals: Catalog<MealView>,
    dishes: Catalog<DishView>,
    name: Seq<char>,
    appetizer: i32,
    main: i32,
    dessert: i32,
) -> Result<i32, RepoError> {
    if meals.by_name.contains_key(name) {
        Err(RepoError::DuplicateName)
    } else if !references_resolve(dishes, appetizer, main, dessert) {
        Err(RepoError::InvalidReference)
    } else {
        Ok(meals.next_id())
    }
}

/// The meals after creating one: the new meal is added on success, and
/// nothing changes on failure.
pub open spec fn create_meal(
    meals: Catalog<MealView>,
    dishes: Catalog<DishView>,
    name: Seq<char>,
    appetizer: i32,
    main: i32,
    dessert: i32,
) -> Catalog<MealView> {
    match create_meal_result(meals, dishes, name, appetizer, main, dessert) {
        Ok(id) => meals.add(meal_from(dishes, id, name, appetizer, main, dessert)),
        Err(_) => meals,
    }
}

/// What updating a meal answers: the meal must exist, a new name must be
/// free, and the three dishes must exist; then the meal keeps its identifier.
pub open spec fn update_meal_result(
    meals: Catalog<MealView>,
    dishes: Catalog<DishView>,
    id: i32,
    name: Seq<char>,
    appetizer: i32,
    main: i32,
    dessert: i32,
) -> Result<i32, RepoError> {
    if !meals.by_id.contains_key(id) {
        Err(RepoError::NotFound)
    } else if name != meals.by_id[id].name && meals.by_name.contains_key(name) {
        Err(RepoError::DuplicateName)
    } else if !references_resolve(dishes, appetizer, main, dessert) {
        Err(RepoError::InvalidReference)
    } else {
        Ok(id)
    }
}

/// The meals after updating one: on success the meal is made anew from the
/// name and the three dishes, and found by the new name only; nothing
/// changes on failure, the name neither.
pub open spec fn update_meal(
    meals: Catalog<MealView>,
    dishes: Catalog<DishView>,
    id: i32,
    name: Seq<char>,
    appetizer: i32,
    main: i32,
    dessert: i32,
) -> Catalog<MealView> {
    match update_meal_result(meals, dishes, id, name, appetizer, main, dessert) {
        Ok(_) => meals.replace(meal_from(dishes, id, name, appetizer, main, dessert)),
        Err(_) => meals,
    }
}

/// The meals of a map, each by its view.
pub open spec fn meal_views(meals: Map<i32, Meal>) -> Map<i32, MealView> {
    meals.map_values(|meal: Meal| meal@)
}

/// The store of meals: each meal by its identifier, and each identifier by
/// the name of its meal.
pub struct MealRepository {
    ids: IdAllocator,
    by_id: HashMap<i32, Meal>,
    by_name: StringHashMap<i32>,
}

impl View for MealRepository {
    type V = Catalog<MealView>;

    closed spec fn view(&self) -> Catalog<MealView> {
        Catalog {
            counter: self.ids.last_issued(),
            by_id: meal_views(self.by_id@),
            by_name: self.by_name@,
        }
    }
}

impl MealRepository {
    /// A store without meals.
    pub fn new() -> (repo: Self)
        ensures
            repo@ == Catalog::<MealView>::empty(),
            repo@.wf(),
    {
        let repo = MealRepository {
            ids: IdAllocator::new(),
            by_id: HashMap::new(),
            by_name: StringHashMap::new(),
        };
        assert(repo@ =~= Catalog::<MealView>::empty());
        repo
    }

    /// Whether an identifier is left for a new meal.
    pub fn has_room(&self) -> (room: bool)
        ensures
            room == self@.has_room(),
    {
        !self.ids.is_exhausted()
    }

    /// Whether a meal has this name.
    pub fn contains_name(&self, name: &str) -> (found: bool)
        ensures
            found == self@.by_name.contains_key(name@),
    {
        self.by_name.contains_key(name)
    }

    /// Stores a new meal named `name` of three dishes from `dishes`, with
    /// the totals of the dishes as they are now, and answers its identifier.
    ///
    /// Fails with `DuplicateName` where a meal has that exact name, else
    /// with `InvalidReference` where one of the three identifiers is not
    /// that of a stored dish. A failure changes nothing.
    pub fn create(
        &mut self,
        dishes: &DishRepository,
        name: String,
        appetizer_id: &i32,
        main_id: &i32,
        dessert_id: &i32,
    ) -> (result: Result<i32, RepoError>)
        requires
            old(self)@.wf(),
            create_meal_result(old(self)@, dishes@, name@, *appetizer_id, *main_id, *dessert_id)
                is Ok ==> old(self)@.has_room(),
        ensures
            result == create_meal_result(
                old(self)@,
                dishes@,
                name@,
                *appetizer_id,
                *main_id,
                *dessert_id,
            ),
            final(self)@ == create_meal(
                old(self)@,
                dishes@,
                name@,
                *appetizer_id,
                *main_id,
                *dessert_id,
            ),
            final(self)@.wf(),
    {
        if self.by_name.contains_key(name.as_str()) {
            return Err(RepoError::DuplicateName);
        }
        let appetizer = match dishes.get_by_id(*appetizer_id) {
            Ok(dish) => dish,
            Err(_) => {
                return Err(RepoError::InvalidReference);
            },
        };
        let main = match dishes.get_by_id(*main_id) {
            Ok(dish) => dish,
            Err(_) => {
                return Err(RepoError::InvalidReference);
            },
        };
        let dessert = match dishes.get_by_id(*dessert_id) {
            Ok(dish) => dish,
            Err(_) => {
                return Err(RepoError::InvalidReference);
            },
        };
        let id = self.ids.next();
        let meal = Meal::new(&id, name.clone(), &appetizer, &main, &dessert);
        proof {
            lemma_add_wf(old(self)@, meal@);
        }
        self.by_id.insert(id, meal);
        self.by_name.insert(name, id);
        assert(self@ =~= old(self)@.add(meal@));
        Ok(id)
    }

    /// The meal with this identifier, or `NotFound`.
    pub fn get_by_id(&self, id: i32) -> (result: Result<Meal, RepoError>)
        ensures
            view_of(result) == self@.get_by_id(id),
    {
        match self.by_id.get(&id) {
            Some(meal) => Ok(meal.clone()),
            None => Err(RepoError::NotFound),
        }
    }

    /// The meal with this exact name, or `NotFound`.
    pub fn get_by_name(&self, name: &str) -> (result: Result<Meal, RepoError>)
        ensures
            view_of(result) == self@.get_by_name(name@),
    {
        match self.by_name.get(name) {
            Some(id) => self.get_by_id(*id),
            None => Err(RepoError::NotFound),
        }
    }

    /// A copy of all meals, by identifier.
    pub fn list_all(&self) -> (snapshot: HashMap<i32, Meal>)
        ensures
            meal_views(snapshot@) == self@.by_id,
    {
        self.by_id.clone()
    }

    /// Removes the meal with this identifier from both indices and answers
    /// the identifier, or fails with `NotFound` and changes nothing.
    pub fn delete_by_id(&mut self, id: &i32) -> (result: Result<i32, RepoError>)
        requires
            old(self)@.wf(),
        ensures
            result == old(self)@.delete_by_id_result(*id),
            final(self)@ == old(self)@.delete_by_id(*id),
            final(self)@.wf(),
    {
        proof {
            lemma_delete_wf(old(self)@, *id);
        }
        match self.by_id.remove(id) {
            Some(meal) => {
                self.by_name.remove(meal.name().as_str());
                assert(self@ =~= old(self)@.delete_by_id(*id));
                Ok(*id)
            },
            None => {
                assert(self@ =~= old(self)@);
                Err(RepoError::NotFound)
            },
        }
    }

    /// Removes the meal with this exact name from both indices and answers
    /// its identifier, or fails with `NotFound` and changes nothing.
    pub fn delete_by_name(&mut self, name: &str) -> (result: Result<i32, RepoError>)
        requires
            old(self)@.wf(),
        ensures
            result == old(self)@.delete_by_name_result(name@),
            final(self)@ == old(self)@.delete_by_name(name@),
            final(self)@.wf(),
    {
        proof {
            lemma_delete_by_name_wf(old(self)@, name@);
        }
        let found = match self.by_name.get(name) {
            Some(id) => Some(*id),
            None => None,
        };
        match found {
            Some(id) => {
                self.by_name.remove(name);
                self.by_id.remove(&id);
                assert(self@ =~= old(self)@.delete_by_name(name@));
                Ok(id)
            },
            None => Err(RepoError::NotFound),
        }
    }

    /// Gives the meal with this identifier a name and three dishes from
    /// `dishes` anew, with the totals of the dishes as they are now, and
    /// answers the identifier, which the meal keeps.
    ///
    /// Fails with `NotFound` where no meal has the identifier, else with
    /// `DuplicateName` where the name differs from the meal's own and
    /// another meal has it, else with `InvalidReference` where one of the
    /// three identifiers is not that of a stored dish. The dishes are looked
    /// up before anything is written, so a failure changes nothing: a meal
    /// is never left renamed with its former dishes.
    pub fn update(
        &mut self,
        dishes: &DishRepository,
        id: &i32,
        name: &String,
        appetizer_id: &i32,
        main_id: &i32,
        dessert_id: &i32,
    ) -> (result: Result<i32, RepoError>)
        requires
            old(self)@.wf(),
        ensures
            result == update_meal_result(
                old(self)@,
                dishes@,
                *id,
                name@,
                *appetizer_id,
                *main_id,
                *dessert_id,
            ),
            final(self)@ == update_meal(
                old(self)@,
                dishes@,
                *id,
                name@,
                *appetizer_id,
                *main_id,
                *dessert_id,
            ),
            final(self)@.wf(),
    {
        let former = match self.by_id.get(id) {
            Some(meal) => meal.name().clone(),
            None => {
                return Err(RepoError::NotFound);
            },
        };
        if !(former == *name) && self.by_name.contains_key(name.as_str()) {
            return Err(RepoError::DuplicateName);
        }
        let appetizer = match dishes.get_by_id(*appetizer_id) {
            Ok(dish) => dish,
            Err(_) => {
                return Err(RepoError::InvalidReference);
            },
        };
        let main = match dishes.get_by_id(*main_id) {
            Ok(dish) => dish,
            Err(_) => {
                return Err(RepoError::InvalidReference);
            },
        };
        let dessert = match dishes.get_by_id(*dessert_id) {
            Ok(dish) => dish,
            Err(_) => {
                return Err(RepoError::InvalidReference);
            },
        };
        let meal = Meal::new(id, name.clone(), &appetizer, &main, &dessert);
        proof {
            lemma_replace_wf(old(self)@, meal@);
        }
        self.by_name.remove(former.as_str());
        self.by_name.insert(name.clone(), *id);
        self.by_id.insert(*id, meal);
        assert(self@ =~= old(self)@.replace(meal@));
        Ok(*id)
    }
}

} // verus!
