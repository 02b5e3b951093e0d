use crate::repository::catalog::Catalog;
use crate::repository::dish::{Dish, DishView};
use crate::repository::dish_repository::{
    create_dish, create_dish_result, dish_views, DishRepository,
};
use crate::repository::error::{view_of, RepoError};
use crate::repository::meal::{Meal, MealView};
use crate::repository::meal_repository::{
    create_meal, create_meal_result, meal_views, update_meal, update_meal_result, MealRepository,
};
use crate::repository::nutrition_api_client::NutritionInformation;
use std::collections::HashMap;
use vstd::prelude::*;

verus! {

/// What the repository holds: the dishes and the meals.
pub struct StateView {
    pub dishes: Catalog<DishView>,
    pub meals: Catalog<MealView>,
}

impl StateView {
    /// Both kinds are well formed. Nothing ties the dishes that a meal
    /// refers to to the dishes that exist: a meal keeps its references and
    /// its totals when one of its dishes is deleted.
    pub open spec fn wf(self) -> bool {
        &&& self.dishes.wf()
        &&& self.meals.wf()
    }
}

/// The repository: the one object through which dishes and meals are
/// created, read, changed and deleted.
///
/// Every operation is complete when it returns, so a caller that shares the
/// repository behind one lock gives every other caller a state in which the
/// two indices of each kind agree.
pub struct AppState {
    dishes: DishRepository,
    meals: MealRepository,
}

impl View for AppState {
    type V = StateView;

    closed spec fn view(&self) -> StateView {
        StateView { dishes: self.dishes@, meals: self.meals@ }
    }
}

impl AppState {
    /// What holds of every repository at every moment: the two indices of
    /// each kind agree, and every identifier in use has been issued.
    #[verifier::type_invariant]
    pub open spec fn consistent(self) -> bool {
        self@.wf()
    }

    /// A repository without dishes and meals.
    pub fn new() -> (state: AppState)
        ensures
            state@.dishes == Catalog::<DishView>::empty(),
            state@.meals == Catalog::<MealView>::empty(),
    {
        AppState { dishes: DishRepository::new(), meals: MealRepository::new() }
    }

    /// Whether `create_dish` can be asked with these arguments: where it
    /// would store the dish, an identifier must be left to give it.
    pub fn admits_dish(&self, name: &String, data: &Result<NutritionInformation, RepoError>) -> (admitted:
        bool)
        ensures
            admitted == (create_dish_result(self@.dishes, name@, *data) is Ok
                ==> self@.dishes.has_room()),
    {
        if self.dishes.has_room() {
            true
        } else if self.dishes.contains_name(name.as_str()) {
            true
        } else {
            match data {
                Ok(_) => false,
                Err(_) => true,
            }
        }
    }

    /// Whether `create_meal` can be asked with these arguments: where it
    /// would store the meal, an identifier must be left to give it.
    pub fn admits_meal(
        &self,
        name: &String,
        appetizer_id: &i32,
        main_id: &i32,
        dessert_id: &i32,
    ) -> (admitted: bool)
        ensures
            admitted == (create_meal_result(
                self@.meals,
                self@.dishes,
                name@,
                *appetizer_id,
                *main_id,
                *dessert_id,
            ) is Ok ==> self@.meals.has_room()),
    {
        self.meals.has_room() || self.meals.contains_name(name.as_str())
            || !self.dishes.contains_id(*appetizer_id) || !self.dishes.contains_id(*main_id)
            || !self.dishes.contains_id(*dessert_id)
    }

    /// Tells, before the nutrition lookup is made, whether a dish could be
    /// created under this name: `DuplicateName` where a dish has it.
    pub fn check_dish_name(&self, name: &String) -> (result: Result<(), RepoError>)
        ensures
            result == if self@.dishes.by_name.contains_key(name@) {
                Err::<(), RepoError>(RepoError::DuplicateName)
            } else {
                Ok::<(), RepoError>(())
            },
    {
        if self.dishes.contains_name(name.as_str()) {
            Err(RepoError::DuplicateName)
        } else {
            Ok(())
        }
    }

    /// Stores a new dish named `name` and answers its identifier.
    ///
    /// `data` is what the nutrition lookup for `name` delivered. The caller
    /// makes the lookup before it takes hold of the repository, so that no
    /// other caller waits for the network. The name is tested here once
    /// more: fails with `DuplicateName` where a dish has it, else with the
    /// failure of the lookup. A failure changes nothing.
    pub fn create_dish(&mut self, name: String, data: Result<NutritionInformation, RepoError>) -> (result:
        Result<i32, RepoError>)
        requires
            create_dish_result(old(self)@.dishes, name@, data) is Ok ==> old(
                self,
            )@.dishes.has_room(),
        ensures
            result == create_dish_result(old(self)@.dishes, name@, data),
            final(self)@.dishes == create_dish(old(self)@.dishes, name@, data),
            final(self)@.meals == old(self)@.meals,
    {
        proof {
            use_type_invariant(&*self);
        }
        let mut dishes = DishRepository::new();
        std::mem::swap(&mut dishes, &mut self.dishes);
        let result = dishes.create(name, data);
        self.dishes = dishes;
        result
    }

    /// The dish with this exact name, or `NotFound`.
    pub fn get_dish_by_name(&self, name: String) -> (result: Result<Dish, RepoError>)
        ensures
            view_of(result) == self@.dishes.get_by_name(name@),
    {
        proof {
            use_type_invariant(self);
        }
        self.dishes.get_by_name(name.as_str())
    }

    /// The dish with this identifier, or `NotFound`.
    pub fn get_dish_by_id(&self, id: i32) -> (result: Result<Dish, RepoError>)
        ensures
            view_of(result) == self@.dishes.get_by_id(id),
    {
        proof {
            use_type_invariant(self);
        }
        self.dishes.get_by_id(id)
    }

    /// A copy of all dishes, by identifier. The copy is the caller's own:
    /// it shows the dishes as they are now, whatever is done to the
    /// repository afterwards.
    pub fn get_dishes(&self) -> (snapshot: HashMap<i32, Dish>)
        ensures
            dish_views(snapshot@) == self@.dishes.by_id,
    {
        proof {
            use_type_invariant(self);
        }
        self.dishes.list_all()
    }

    /// Removes the dish with this identifier and answers the identifier, or
    /// fails with `NotFound` and changes nothing. Meals that refer to the
    /// dish keep their reference and their totals.
    pub fn delete_dish_by_id(&mut self, id: i32) -> (result: Result<i32, RepoError>)
        ensures
            result == old(self)@.dishes.delete_by_id_result(id),
            final(self)@.dishes == old(self)@.dishes.delete_by_id(id),
            final(self)@.meals == old(self)@.meals,
    {
        proof {
            use_type_invariant(&*self);
        }
        let mut dishes = DishRepository::new();
        std::mem::swap(&mut dishes, &mut self.dishes);
        let result = dishes.delete_by_id(id);
        self.dishes = dishes;
        result
    }

    /// Removes the dish with this exact name and answers its identifier, or
    /// fails with `NotFound` and changes nothing. Meals that refer to the
    /// dish keep their reference and their totals.
    pub fn delete_dish_by_name(&mut self, name: String) -> (result: Result<i32, RepoError>)
        ensures
            result == old(self)@.dishes.delete_by_name_result(name@),
            final(self)@.dishes == old(self)@.dishes.delete_by_name(name@),
            final(self)@.meals == old(self)@.meals,
    {
        proof {
            use_type_invariant(&*self);
        }
        let mut dishes = DishRepository::new();
        std::mem::swap(&mut dishes, &mut self.dishes);
        let result = dishes.delete_by_name(name.as_str());
        self.dishes = dishes;
        result
    }

    /// Stores a new meal named `name` of three dishes, with the totals of
    /// the dishes as they are now, and answers its identifier.
    ///
    /// Fails with `DuplicateName` where a meal has that exact name, else
    /// with `InvalidReference` where one of the three identifiers is not
    /// that of a stored dish. A failure changes nothing.
    pub fn create_meal(
        &mut self,
        name: String,
        appetizer_id: &i32,
        main_id: &i32,
        dessert_id: &i32,
    ) -> (result: Result<i32, RepoError>)
        requires
            create_meal_result(
                old(self)@.meals,
                old(self)@.dishes,
                name@,
                *appetizer_id,
                *main_id,
                *dessert_id,
            ) is Ok ==> old(self)@.meals.has_room(),
        ensures
            result == create_meal_result(
                old(self)@.meals,
                old(self)@.dishes,
                name@,
                *appetizer_id,
                *main_id,
                *dessert_id,
            ),
            final(self)@.meals == create_meal(
                old(self)@.meals,
                old(self)@.dishes,
                name@,
                *appetizer_id,
                *main_id,
                *dessert_id,
            ),
            final(self)@.dishes == old(self)@.dishes,
    {
        proof {
            use_type_invariant(&*self);
        }
        let mut meals = MealRepository::new();
        std::mem::swap(&mut meals, &mut self.meals);
        let result = meals.create(&self.dishes, name, appetizer_id, main_id, dessert_id);
        self.meals = meals;
        result
    }

    /// The meal with this exact name, or `NotFound`.
    pub fn get_meal_by_name(&self, name: &String) -> (result: Result<Meal, RepoError>)
        ensures
            view_of(result) == self@.meals.get_by_name(name@),
    {
        proof {
            use_type_invariant(self);
        }
        self.meals.get_by_name(name.as_str())
    }

    /// The meal with this identifier, or `NotFound`.
    pub fn get_meal_by_id(&self, id: i32) -> (result: Result<Meal, RepoError>)
        ensures
            view_of(result) == self@.meals.get_by_id(id),
    {
        proof {
            use_type_invariant(self);
        }
        self.meals.get_by_id(id)
    }

    /// A copy of all meals, by identifier. The copy is the caller's own:
    /// it shows the meals as they are now, whatever is done to the
    /// repository afterwards.
    pub fn get_meals(&self) -> (snapshot: HashMap<i32, Meal>)
        ensures
            meal_views(snapshot@) == self@.meals.by_id,
    {
        proof {
            use_type_invariant(self);
        }
        self.meals.list_all()
    }

    /// Removes the meal with this identifier and answers the identifier, or
    /// fails with `NotFound` and changes nothing.
    pub fn delete_meal_by_id(&mut self, id: &i32) -> (result: Result<i32, RepoError>)
        ensures
            result == old(self)@.meals.delete_by_id_result(*id),
            final(self)@.meals == old(self)@.meals.delete_by_id(*id),
            final(self)@.dishes == old(self)@.dishes,
    {
        proof {
            use_type_invariant(&*self);
        }
        let mut meals = MealRepository::new();
        std::mem::swap(&mut meals, &mut self.meals);
        let result = meals.delete_by_id(id);
        self.meals = meals;
        result
    }

    /// Removes the meal with this exact name and answers its identifier, or
    /// fails with `NotFound` and changes nothing.
    pub fn delete_meal_by_name(&mut self, name: &String) -> (result: Result<i32, RepoError>)
        ensures
            result == old(self)@.meals.delete_by_name_result(name@),
            final(self)@.meals == old(self)@.meals.delete_by_name(name@),
            final(self)@.dishes == old(self)@.dishes,
    {
        proof {
            use_type_invariant(&*self);
        }
        let mut meals = MealRepository::new();
        std::mem::swap(&mut meals, &mut self.meals);
        let result = meals.delete_by_name(name.as_str());
        self.meals = meals;
        result
    }

    /// Gives the meal with this identifier a name and three dishes anew,
    /// with the totals of the dishes as they are now, and answers the
    /// identifier, which the meal keeps.
    ///
    /// Fails with `NotFound` where no meal has the identifier, else with
    /// `DuplicateName` where the name differs from the meal's own and
    /// another meal has it, else with `InvalidReference` where one of the
    /// three identifiers is not that of a stored dish. A failure changes
    /// nothing: the meal is renamed only together with its dishes.
    pub fn update_meal(
        &mut self,
        id: &i32,
        name: &String,
        appetizer_id: &i32,
        main_id: &i32,
        dessert_id: &i32,
    ) -> (result: Result<i32, RepoError>)
        ensures
            result == update_meal_result(
                old(self)@.meals,
                old(self)@.dishes,
                *id,
                name@,
                *appetizer_id,
                *main_id,
                *dessert_id,
            ),
            final(self)@.meals == update_meal(
                old(self)@.meals,
                old(self)@.dishes,
                *id,
                name@,
                *appetizer_id,
                *main_id,
                *dessert_id,
            ),
            final(self)@.dishes == old(self)@.dishes,
    {
        proof {
            use_type_invariant(&*self);
        }
        let mut meals = MealRepository::new();
        std::mem::swap(&mut meals, &mut self.meals);
        let result = meals.update(&self.dishes, id, name, appetizer_id, main_id, dessert_id);
        self.meals = meals;
        result
    }
}

} // verus!
