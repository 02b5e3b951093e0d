use crate::repository::dish::{Dish, DishView};
use crate::repository::nutrition_api_client::{clamp_amount, sum3};
use vstd::prelude::*;

verus! {

/// What a meal is, as plain values.
pub struct MealView {
    pub id: i32,
    pub name: Seq<char>,
    pub appetizer: i32,
    pub main: i32,
    pub dessert: i32,
    pub cal: i64,
    pub sodium: i64,
    pub sugar: i64,
}

/// Three dishes under one name, with the totals of their energy, sodium and
/// sugar as they were when the meal was made or last updated.
#[derive(Debug)]
pub struct Meal {
    id: i32,
    name: String,
    appetizer: i32,
    main: i32,
    dessert: i32,
    cal: i64,
    sodium: i64,
    sugar: i64,
}

/// The meal that `id`, `name` and three dishes make: it refers to each dish
/// by its identifier and holds, for energy, sodium and sugar, the sum over
/// the three dishes, clamped to the range of an amount.
pub open spec fn meal_of(
    id: i32,
    name: Seq<char>,
    appetizer: DishView,
    main: DishView,
    dessert: DishView,
) -> MealView {
    MealView {
        id,
        name,
        appetizer: appetizer.id,
        main: main.id,
        dessert: dessert.id,
        cal: clamp_amount(appetizer.cal + main.cal + dessert.cal),
        sodium: clamp_amount(appetizer.sodium + main.sodium + dessert.sodium),
        sugar: clamp_amount(appetizer.sugar + main.sugar + dessert.sugar),
    }
}

impl View for Meal {
    type V = MealView;

    closed spec fn view(&self) -> MealView {
        MealView {
            id: self.id,
            name: self.name@,
            appetizer: self.appetizer,
            main: self.main,
            dessert: self.dessert,
            cal: self.cal,
            sodium: self.sodium,
            sugar: self.sugar,
        }
    }
}

impl Clone for Meal {
    fn clone(&self) -> (copy: Self)
        ensures
            copy == *self,
    {
        Meal {
            id: self.id,
            name: self.name.clone(),
            appetizer: self.appetizer,
            main: self.main,
            dessert: self.dessert,
            cal: self.cal,
            sodium: self.sodium,
            sugar: self.sugar,
        }
    }
}

impl Meal {
    /// The meal that `id`, `name` and three dishes make, with the totals of
    /// the dishes as they are handed in.
    pub fn new(id: &i32, name: String, appetizer: &Dish, main: &Dish, dessert: &Dish) -> (meal: Meal)
        ensures
            meal@ == meal_of(*id, name@, appetizer@, main@, dessert@),
    {
        Meal {
            id: *id,
            name: name,
            appetizer: appetizer.id(),
            main: main.id(),
            dessert: dessert.id(),
            cal: sum3(appetizer.cal(), main.cal(), dessert.cal()),
            sodium: sum3(appetizer.sodium(), main.sodium(), dessert.sodium()),
            sugar: sum3(appetizer.sugar(), main.sugar(), dessert.sugar()),
        }
    }

    /// The identifier under which the meal is stored.
    pub fn id(&self) -> (id: i32)
        ensures
            id == self@.id,
    {
        self.id
    }

    /// The name by which the meal is found.
    pub fn name(&self) -> (name: &String)
        ensures
            name@ == self@.name,
    {
        &self.name
    }

    /// The identifier of the first course.
    pub fn appetizer(&self) -> (id: i32)
        ensures
            id == self@.appetizer,
    {
        self.appetizer
    }

    /// The identifier of the main course.
    pub fn main(&self) -> (id: i32)
        ensures
            id == self@.main,
    {
        self.main
    }

    /// The identifier of the last course.
    pub fn dessert(&self) -> (id: i32)
        ensures
            id == self@.dessert,
    {
        self.dessert
    }

    /// Total energy, in thousandths of a kilocalorie.
    pub fn cal(&self) -> (cal: i64)
        ensures
            cal == self@.cal,
    {
        self.cal
    }

    /// Total sodium, in thousandths of a milligram.
    pub fn sodium(&self) -> (sodium: i64)
        ensures
            sodium == self@.sodium,
    {
        self.sodium
    }

    /// Total sugar, in thousandths of a gram.
    pub fn sugar(&self) -> (sugar: i64)
        ensures
            sugar == self@.sugar,
    {
        self.sugar
    }
}

} // verus!
