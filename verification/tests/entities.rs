use meals_service::api::dish::CreateDishRequest;
use meals_service::api::meal::CreateMealRequest;
use meals_service::repository::dish::Dish;
use meals_service::repository::meal::Meal;
use meals_service::repository::nutrition_api_client::NutritionInformation;

fn dish(id: i32, name: &str, cal: i64, sodium: i64, sugar: i64) -> Dish {
    let facts = NutritionInformation {
        name: String::from("another name"),
        calories: cal,
        serving_size_g: 150_000,
        fat_total_g: 1,
        fat_saturated_g: 2,
        protein_g: 3,
        sodium_mg: sodium,
        potassium_mg: 4,
        cholesterol_mg: 5,
        carbohydrates_total_g: 6,
        fiber_g: 7,
        sugar_g: sugar,
    };
    Dish::new(id, String::from(name), facts)
}

#[test]
fn dish_takes_four_amounts_and_the_name_it_is_given() {
    let pasta = dish(1, "pasta", 500_000, 12_000, 1_000);
    assert_eq!(pasta.id(), 1);
    assert_eq!(pasta.name(), "pasta");
    assert_eq!(pasta.cal(), 500_000);
    assert_eq!(pasta.size(), 150_000);
    assert_eq!(pasta.sodium(), 12_000);
    assert_eq!(pasta.sugar(), 1_000);
}

#[test]
fn copy_of_a_dish_is_the_same_dish() {
    let pasta = dish(8, "pasta", 1, 2, 3);
    let copy = pasta.clone();
    assert_eq!(copy.id(), 8);
    assert_eq!(copy.name(), pasta.name());
    assert_eq!((copy.cal(), copy.size(), copy.sodium(), copy.sugar()), (1, 150_000, 2, 3));
}

#[test]
fn meal_refers_to_its_dishes_and_sums_them() {
    let salad = dish(2, "salad", 28_200, 78_200, 6_000);
    let pasta = dish(1, "pasta", 500_000, 12_000, 1_000);
    let meal = Meal::new(&7, String::from("combo"), &salad, &pasta, &salad);
    assert_eq!(meal.id(), 7);
    assert_eq!(meal.name(), "combo");
    assert_eq!(meal.appetizer(), 2);
    assert_eq!(meal.main(), 1);
    assert_eq!(meal.dessert(), 2);
    assert_eq!(meal.cal(), 556_400);
    assert_eq!(meal.sodium(), 168_400);
    assert_eq!(meal.sugar(), 13_000);
    let copy = meal.clone();
    assert_eq!((copy.id(), copy.cal(), copy.main()), (7, 556_400, 1));
    assert_eq!(copy.name(), "combo");
}

#[test]
fn meal_of_one_dish_three_times() {
    let cake = dish(3, "cake", -5, 0, i64::MAX);
    let meal = Meal::new(&1, String::new(), &cake, &cake, &cake);
    assert_eq!(meal.name(), "");
    assert_eq!((meal.appetizer(), meal.main(), meal.dessert()), (3, 3, 3));
    assert_eq!((meal.cal(), meal.sodium(), meal.sugar()), (-15, 0, i64::MAX));
}

#[test]
fn request_bodies_hold_what_they_are_given() {
    let dish = CreateDishRequest { name: String::from("soup") };
    assert_eq!(dish.name, "soup");
    let meal = CreateMealRequest { name: String::from("dinner"), appetizer: 1, main: 2, dessert: 3 };
    assert_eq!((meal.name.as_str(), meal.appetizer, meal.main, meal.dessert), ("dinner", 1, 2, 3));
}
