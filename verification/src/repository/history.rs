use crate::repository::dish_repository::{create_dish, create_dish_result};
use crate::repository::error::RepoError;
use crate::repository::meal_repository::{
    create_meal, create_meal_result, update_meal, update_meal_result,
};
use crate::repository::nutrition_api_client::NutritionInformation;
use crate::repository::state::StateView;
use vstd::prelude::*;

verus! {

/// One change that a caller can ask of the repository, with its arguments
/// as plain values.
pub enum Operation {
    CreateDish { name: Seq<char>, data: Result<NutritionInformation, RepoError> },
    DeleteDishById { id: i32 },
    DeleteDishByName { name: Seq<char> },
    CreateMeal { name: Seq<char>, appetizer: i32, main: i32, dessert: i32 },
    UpdateMeal { id: i32, name: Seq<char>, appetizer: i32, main: i32, dessert: i32 },
    DeleteMealById { id: i32 },
    DeleteMealByName { name: Seq<char> },
}

impl StateView {
    /// What the repository answers to `op`.
    pub open spec fn answer(self, op: Operation) -> Result<i32, RepoError> {
        match op {
            Operation::CreateDish { name, data } => create_dish_result(self.dishes, name, data),
            Operation::DeleteDishById { id } => self.dishes.delete_by_id_result(id),
            Operation::DeleteDishByName { name } => self.dishes.delete_by_name_result(name),
            Operation::CreateMeal { name, appetizer, main, dessert } => create_meal_result(
                self.meals,
                self.dishes,
                name,
                appetizer,
                main,
                dessert,
            ),
            Operation::UpdateMeal { id, name, appetizer, main, dessert } => update_meal_result(
                self.meals,
                self.dishes,
                id,
                name,
                appetizer,
                main,
                dessert,
            ),
            Operation::DeleteMealById { id } => self.meals.delete_by_id_result(id),
            Operation::DeleteMealByName { name } => self.meals.delete_by_name_result(name),
        }
    }

    /// What the repository holds after `op`.
    pub open spec fn apply(self, op: Operation) -> StateView {
        match op {
            Operation::CreateDish { name, data } => StateView {
                dishes: create_dish(self.dishes, name, data),
                meals: self.meals,
            },
            Operation::DeleteDishById { id } => StateView {
                dishes: self.dishes.delete_by_id(id),
                meals: self.meals,
            },
            Operation::DeleteDishByName { name } => StateView {
                dishes: self.dishes.delete_by_name(name),
                meals: self.meals,
            },
            Operation::CreateMeal { name, appetizer, main, dessert } => StateView {
                dishes: self.dishes,
                meals: create_meal(self.meals, self.dishes, name, appetizer, main, dessert),
            },
            Operation::UpdateMeal { id, name, appetizer, main, dessert } => StateView {
                dishes: self.dishes,
                meals: update_meal(self.meals, self.dishes, id, name, appetizer, main, dessert),
            },
            Operation::DeleteMealById { id } => StateView {
                dishes: self.dishes,
                meals: self.meals.delete_by_id(id),
            },
            Operation::DeleteMealByName { name } => StateView {
                dishes: self.dishes,
                meals: self.meals.delete_by_name(name),
            },
        }
    }

    /// Whether `op` can be asked now: a creation that would succeed needs
    /// an identifier that is left to issue.
    pub open spec fn admits(self, op: Operation) -> bool {
        match op {
            Operation::CreateDish { .. } => self.answer(op) is Ok ==> self.dishes.has_room(),
            Operation::CreateMeal { .. } => self.answer(op) is Ok ==> self.meals.has_room(),
            _ => true,
        }
    }

    /// What the repository holds after the operations `ops`, in their order.
    pub open spec fn run(self, ops: Seq<Operation>) -> StateView
        decreases ops.len(),
    {
        if ops.len() == 0 {
            self
        } else {
            self.run(ops.drop_last()).apply(ops.last())
        }
    }

    /// Whether each of `ops` can be asked when its turn comes.
    pub open spec fn admits_all(self, ops: Seq<Operation>) -> bool
        decreases ops.len(),
    {
        ops.len() == 0 || (self.admits_all(ops.drop_last()) && self.run(ops.drop_last()).admits(
            ops.last(),
        ))
    }
}

} // verus!
