use meals_service::repository::error::RepoError;
use meals_service::repository::nutrition_api_client::{
    get_nutrition_data, request_url, sum3, total_of, Nutrient, NutritionInformation, AMOUNT_SCALE,
};

fn entry(name: &str, base: i64) -> NutritionInformation {
    NutritionInformation {
        name: String::from(name),
        calories: base + 1,
        serving_size_g: base + 2,
        fat_total_g: base + 3,
        fat_saturated_g: base + 4,
        protein_g: base + 5,
        sodium_mg: base + 6,
        potassium_mg: base + 7,
        cholesterol_mg: base + 8,
        carbohydrates_total_g: base + 9,
        fiber_g: base + 10,
        sugar_g: base + 11,
    }
}

#[test]
fn amounts_count_thousandths() {
    assert_eq!(AMOUNT_SCALE, 1000);
}

#[test]
fn default_facts_are_empty() {
    let nothing = NutritionInformation::default();
    assert_eq!(nothing.name, "");
    assert_eq!(nothing.get_calories(), 0);
    assert_eq!(nothing.get_size(), 0);
    assert_eq!(nothing.get_sodium(), 0);
    assert_eq!(nothing.get_sugar(), 0);
    assert_eq!(nothing.get(Nutrient::Potassium), 0);
    assert_eq!(nothing.get(Nutrient::Fiber), 0);
}

#[test]
fn getters_read_their_own_field() {
    let e = entry("x", 0);
    assert_eq!(e.get_calories(), 1);
    assert_eq!(e.get_size(), 2);
    assert_eq!(e.get_sodium(), 6);
    assert_eq!(e.get_sugar(), 11);
    assert_eq!(e.get(Nutrient::Calories), 1);
    assert_eq!(e.get(Nutrient::ServingSize), 2);
    assert_eq!(e.get(Nutrient::FatTotal), 3);
    assert_eq!(e.get(Nutrient::FatSaturated), 4);
    assert_eq!(e.get(Nutrient::Protein), 5);
    assert_eq!(e.get(Nutrient::Sodium), 6);
    assert_eq!(e.get(Nutrient::Potassium), 7);
    assert_eq!(e.get(Nutrient::Cholesterol), 8);
    assert_eq!(e.get(Nutrient::CarbohydratesTotal), 9);
    assert_eq!(e.get(Nutrient::Fiber), 10);
    assert_eq!(e.get(Nutrient::Sugar), 11);
}

#[test]
fn missing_answer_is_upstream_unavailable() {
    let data = get_nutrition_data(String::from("soup"), None);
    assert!(matches!(data, Err(RepoError::UpstreamUnavailable)));
}

#[test]
fn no_entry_sums_to_zero_under_the_requested_name() {
    let data = get_nutrition_data(String::from("nothing known"), Some(vec![])).unwrap();
    assert_eq!(data.name, "nothing known");
    assert_eq!(data.calories, 0);
    assert_eq!(data.serving_size_g, 0);
    assert_eq!(data.sugar_g, 0);
    assert_eq!(data.potassium_mg, 0);
}

#[test]
fn every_field_is_summed_over_all_entries() {
    let entries = vec![entry("rice", 100), entry("beans", 2_000), entry("salsa", 30_000)];
    let data = get_nutrition_data(String::from("rice and beans"), Some(entries)).unwrap();
    assert_eq!(data.name, "rice and beans");
    assert_eq!(data.calories, 32_103);
    assert_eq!(data.serving_size_g, 32_106);
    assert_eq!(data.fat_total_g, 32_109);
    assert_eq!(data.fat_saturated_g, 32_112);
    assert_eq!(data.protein_g, 32_115);
    assert_eq!(data.sodium_mg, 32_118);
    assert_eq!(data.potassium_mg, 32_121);
    assert_eq!(data.cholesterol_mg, 32_124);
    assert_eq!(data.carbohydrates_total_g, 32_127);
    assert_eq!(data.fiber_g, 32_130);
    assert_eq!(data.sugar_g, 32_133);
}

#[test]
fn one_entry_is_taken_over_but_for_its_name() {
    let data = get_nutrition_data(String::from("asked"), Some(vec![entry("answered", 5)])).unwrap();
    assert_eq!(data.name, "asked");
    assert_eq!(data.calories, 6);
    assert_eq!(data.sugar_g, 16);
}

#[test]
fn total_is_exact_where_a_running_sum_would_leave_the_range() {
    let mut big = entry("big", 0);
    big.calories = i64::MAX;
    let mut small = entry("small", 0);
    small.calories = -10;
    let up_and_down = vec![big, entry("one", 0), small];
    assert_eq!(total_of(&up_and_down, Nutrient::Calories), i64::MAX - 9);
    let mut low = entry("low", 0);
    low.protein_g = i64::MIN;
    let mut lower = entry("lower", 0);
    lower.protein_g = -7;
    let mut up = entry("up", 0);
    up.protein_g = 9;
    assert_eq!(total_of(&vec![low, lower, up], Nutrient::Protein), i64::MIN + 2);
}

#[test]
fn total_stops_at_the_ends_of_the_range() {
    let mut high = entry("high", 0);
    high.sodium_mg = i64::MAX;
    let mut also_high = entry("also high", 0);
    also_high.sodium_mg = i64::MAX;
    assert_eq!(total_of(&vec![high, also_high], Nutrient::Sodium), i64::MAX);
    let mut low = entry("low", 0);
    low.fiber_g = i64::MIN;
    let mut lower = entry("lower", 0);
    lower.fiber_g = -1;
    assert_eq!(total_of(&vec![low, lower], Nutrient::Fiber), i64::MIN);
}

#[test]
fn sum_of_three_amounts() {
    assert_eq!(sum3(28_200, 500_000, 28_200), 556_400);
    assert_eq!(sum3(0, 0, 0), 0);
    assert_eq!(sum3(-5, 2, 1), -2);
    assert_eq!(sum3(i64::MAX, i64::MAX, i64::MIN), i64::MAX - 1);
    assert_eq!(sum3(i64::MAX, 1, 0), i64::MAX);
    assert_eq!(sum3(i64::MIN, -1, -1), i64::MIN);
    assert_eq!(sum3(i64::MIN, i64::MIN, i64::MAX), i64::MIN);
}

#[test]
fn the_name_goes_into_the_query_as_it_is() {
    assert_eq!(
        request_url("https://example.org/v1/nutrition", "pasta"),
        "https://example.org/v1/nutrition?query=pasta"
    );
    assert_eq!(request_url("e", "chicken soup & rice"), "e?query=chicken soup & rice");
    assert_eq!(request_url("", ""), "?query=");
}
