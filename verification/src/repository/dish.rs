use crate::repository::nutrition_api_client::NutritionInformation;
use vstd::prelude::*;

verus! {

/// What a dish is, as plain values.
pub struct DishView {
    pub id: i32,
    pub name: Seq<char>,
    pub cal: i64,
    pub size: i64,
    pub sodium: i64,
    pub sugar: i64,
}

/// A named nutrition record. Its amounts are taken once, from the nutrition
/// facts it is made with, and a dish never changes afterwards.
#[derive(Debug)]
pub struct Dish {
    id: i32,
    name: String,
    cal: i64,
    size: i64,
    sodium: i64,
    sugar: i64,
}

/// The dish that `id`, `name` and the nutrition facts `data` make. The name
/// is the one given, not the one inside `data`.
pub open spec fn dish_of(id: i32, name: Seq<char>, data: NutritionInformation) -> DishView {
    DishView {
        id,
        name,
        cal: data.calories,
        size: data.serving_size_g,
        sodium: data.sodium_mg,
        sugar: data.sugar_g,
    }
}

impl View for Dish {
    type V = DishView;

    closed spec fn view(&self) -> DishView {
        DishView {
            id: self.id,
            name: self.name@,
            cal: self.cal,
            size: self.size,
            sodium: self.sodium,
            sugar: self.sugar,
        }
    }
}

impl Clone for Dish {
    fn clone(&self) -> (copy: Self)
        ensures
            copy == *self,
    {
        Dish {
            id: self.id,
            name: self.name.clone(),
            cal: self.cal,
            size: self.size,
            sodium: self.sodium,
            sugar: self.sugar,
        }
    }
}

impl Dish {
    /// The dish that `id`, `name` and four of the amounts in `data` make:
    /// energy, serving size, sodium and sugar.
    pub fn new(id: i32, name: String, data: NutritionInformation) -> (dish: Dish)
        ensures
            dish@ == dish_of(id, name@, data),
    {
        Dish {
            name: name,
            id: id,
            cal: data.get_calories(),
            size: data.get_size(),
            sodium: data.get_sodium(),
            sugar: data.get_sugar(),
        }
    }

    /// The identifier under which the dish is stored.
    pub fn id(&self) -> (id: i32)
        ensures
            id == self@.id,
    {
        self.id
    }

    /// The name by which the dish is found.
    pub fn name(&self) -> (name: &String)
        ensures
            name@ == self@.name,
    {
        &self.name
    }

    /// Energy, in thousandths of a kilocalorie.
    pub fn cal(&self) -> (cal: i64)
        ensures
            cal == self@.cal,
    {
        self.cal
    }

    /// Serving size, in thousandths of a gram.
    pub fn size(&self) -> (size: i64)
        ensures
            size == self@.size,
    {
        self.size
    }

    /// Sodium, in thousandths of a milligram.
    pub fn sodium(&self) -> (sodium: i64)
        ensures
            sodium == self@.sodium,
    {
        self.sodium
    }

    /// Sugar, in thousandths of a gram.
    pub fn sugar(&self) -> (sugar: i64)
        ensures
            sugar == self@.sugar,
    {
        self.sugar
    }
}

} // verus!
