use meals_service::api::dish::{
    create_dish, delete_dish, delete_dish_by_id, delete_dish_by_name, delete_dishes,
    finish_create_dish, get_dish, get_dishes, CreateDishRequest, CreateDishStep,
};
use meals_service::api::meal::{
    can_create_meal, create_meal, delete_meal, delete_meals, get_meal, get_meals, update_meal,
    CreateMealRequest,
};
use meals_service::api::response::{
    answer, check_content_type, not_implemented, undecodable, Status, NO_CODE, UNDECODABLE,
};
use meals_service::repository::error::RepoError;
use meals_service::repository::nutrition_api_client::NutritionInformation;
use meals_service::repository::state::AppState;

fn looked_up(cal: i64) -> Result<NutritionInformation, RepoError> {
    Ok(NutritionInformation { calories: cal, ..NutritionInformation::default() })
}

fn dish_request(name: &str) -> Option<CreateDishRequest> {
    Some(CreateDishRequest { name: String::from(name) })
}

fn meal_request(name: &str, appetizer: i32, main: i32, dessert: i32) -> Option<CreateMealRequest> {
    Some(CreateMealRequest { name: String::from(name), appetizer, main, dessert })
}

fn stocked() -> AppState {
    let mut state = AppState::new();
    assert_eq!(state.create_dish(String::from("soup"), looked_up(100)), Ok(1));
    assert_eq!(state.create_dish(String::from("7"), looked_up(20)), Ok(2));
    assert_eq!(state.create_dish(String::from("cake"), looked_up(3)), Ok(3));
    state
}

#[test]
fn status_numbers() {
    assert_eq!(Status::Success.code(), 200);
    assert_eq!(Status::Created.code(), 201);
    assert_eq!(Status::NotFound.code(), 404);
    assert_eq!(Status::MethodNotAllowed.code(), 405);
    assert_eq!(Status::UnsupportedMediaType.code(), 415);
    assert_eq!(Status::UnprocessableEntity.code(), 422);
}

#[test]
fn only_plain_json_is_read() {
    assert!(check_content_type("application/json").is_none());
    for other in ["", "text/plain", "application/json; charset=utf-8", "Application/JSON", "application/json "] {
        let refusal = check_content_type(other).unwrap();
        assert_eq!(refusal.status, Status::UnsupportedMediaType);
        assert_eq!(refusal.body, NO_CODE);
        assert_eq!(refusal.body, 0);
    }
}

#[test]
fn fixed_responses() {
    let bad = undecodable();
    assert_eq!((bad.status, bad.body), (Status::UnprocessableEntity, -1));
    assert_eq!(UNDECODABLE, -1);
    let none = not_implemented();
    assert_eq!(none.status, Status::MethodNotAllowed);
    assert_eq!(none.body, "Not implemented");
    let dishes = delete_dishes();
    assert_eq!((dishes.status, dishes.body.as_str()), (Status::MethodNotAllowed, "Not implemented"));
    let meals = delete_meals();
    assert_eq!((meals.status, meals.body.as_str()), (Status::MethodNotAllowed, "Not implemented"));
}

#[test]
fn an_identifier_or_the_code_of_the_error_is_answered() {
    let ok = answer(Ok(12), Status::Created, Status::UnprocessableEntity);
    assert_eq!((ok.status, ok.body), (Status::Created, 12));
    let dup = answer(Err(RepoError::DuplicateName), Status::Created, Status::UnprocessableEntity);
    assert_eq!((dup.status, dup.body), (Status::UnprocessableEntity, -2));
    let missing = answer(Err(RepoError::InvalidReference), Status::Success, Status::NotFound);
    assert_eq!((missing.status, missing.body), (Status::NotFound, -6));
}

#[test]
fn creating_a_dish_goes_through_the_lookup() {
    let mut state = AppState::new();
    let name = match create_dish(dish_request("soup"), &state) {
        CreateDishStep::Lookup(name) => name,
        CreateDishStep::Done(reply) => panic!("answered {:?}", reply),
    };
    assert_eq!(name, "soup");
    let created = finish_create_dish(name, looked_up(5), &mut state);
    assert_eq!((created.status, created.body), (Status::Created, 1));
    assert_eq!(state.get_dish_by_id(1).unwrap().cal(), 5);
}

#[test]
fn taken_dish_name_is_answered_without_a_lookup() {
    let state = stocked();
    match create_dish(dish_request("soup"), &state) {
        CreateDishStep::Done(reply) => {
            assert_eq!((reply.status, reply.body), (Status::UnprocessableEntity, -2))
        }
        CreateDishStep::Lookup(name) => panic!("would look {:?} up", name),
    }
}

#[test]
fn undecodable_dish_request_is_answered_without_a_lookup() {
    let state = AppState::new();
    match create_dish(None, &state) {
        CreateDishStep::Done(reply) => {
            assert_eq!((reply.status, reply.body), (Status::UnprocessableEntity, -1))
        }
        CreateDishStep::Lookup(name) => panic!("would look {:?} up", name),
    }
}

#[test]
fn failures_after_the_lookup_are_unprocessable() {
    let mut state = stocked();
    let down = finish_create_dish(String::from("stew"), Err(RepoError::UpstreamUnavailable), &mut state);
    assert_eq!((down.status, down.body), (Status::UnprocessableEntity, -4));
    let taken_meanwhile = finish_create_dish(String::from("cake"), looked_up(1), &mut state);
    assert_eq!((taken_meanwhile.status, taken_meanwhile.body), (Status::UnprocessableEntity, -2));
    assert_eq!(state.get_dishes().len(), 3);
}

#[test]
fn dishes_are_listed() {
    let state = stocked();
    let reply = get_dishes(&state);
    assert_eq!(reply.status, Status::Success);
    assert_eq!(reply.body.len(), 3);
    assert_eq!(reply.body[&3].name(), "cake");
}

#[test]
fn a_dish_is_found_by_identifier_or_by_name() {
    let state = stocked();
    let by_id = get_dish(String::from("1"), &state);
    assert_eq!(by_id.status, Status::Success);
    assert_eq!(by_id.body.unwrap().name(), "soup");
    let by_name = get_dish(String::from("cake"), &state);
    assert_eq!(by_name.status, Status::Success);
    assert_eq!(by_name.body.unwrap().id(), 3);
    let signed = get_dish(String::from("+3"), &state);
    assert_eq!(signed.body.unwrap().name(), "cake");
    let missing = get_dish(String::from("4"), &state);
    assert_eq!(missing.status, Status::NotFound);
    assert_eq!(missing.body.unwrap_err(), -5);
    let unknown = get_dish(String::from("stew"), &state);
    assert_eq!((unknown.status, unknown.body.unwrap_err()), (Status::NotFound, -5));
}

#[test]
fn a_segment_of_digits_is_an_identifier_even_where_a_dish_bears_it_as_name() {
    let state = stocked();
    let seven = get_dish(String::from("7"), &state);
    assert_eq!(seven.status, Status::NotFound);
    let two = get_dish(String::from("2"), &state);
    assert_eq!(two.body.unwrap().name(), "7");
    let too_long_for_an_identifier = get_dish(String::from("99999999999"), &state);
    assert_eq!(too_long_for_an_identifier.status, Status::NotFound);
}

#[test]
fn a_dish_is_deleted_by_identifier_or_by_name() {
    let mut state = stocked();
    let by_id = delete_dish(String::from("1"), &mut state);
    assert_eq!((by_id.status, by_id.body), (Status::Success, 1));
    let again = delete_dish(String::from("1"), &mut state);
    assert_eq!((again.status, again.body), (Status::NotFound, -5));
    let by_name = delete_dish(String::from("cake"), &mut state);
    assert_eq!((by_name.status, by_name.body), (Status::Success, 3));
    let gone = delete_dish(String::from("cake"), &mut state);
    assert_eq!((gone.status, gone.body), (Status::NotFound, -5));
    let direct = delete_dish_by_id(2, &mut state);
    assert_eq!((direct.status, direct.body), (Status::Success, 2));
    let nothing = delete_dish_by_name(String::from("7"), &mut state);
    assert_eq!((nothing.status, nothing.body), (Status::NotFound, -5));
    assert!(state.get_dishes().is_empty());
}

#[test]
fn creating_a_meal_answers_created_or_unprocessable() {
    let mut state = stocked();
    assert!(can_create_meal(&meal_request("dinner", 1, 2, 3), &state));
    assert!(can_create_meal(&None, &state));
    let created = create_meal(meal_request("dinner", 1, 2, 3), &mut state);
    assert_eq!((created.status, created.body), (Status::Created, 1));
    let duplicate = create_meal(meal_request("dinner", 1, 2, 3), &mut state);
    assert_eq!((duplicate.status, duplicate.body), (Status::UnprocessableEntity, -2));
    let dangling = create_meal(meal_request("lunch", 1, 2, 4), &mut state);
    assert_eq!((dangling.status, dangling.body), (Status::UnprocessableEntity, -6));
    let garbled = create_meal(None, &mut state);
    assert_eq!((garbled.status, garbled.body), (Status::UnprocessableEntity, -1));
    let listed = get_meals(&state);
    assert_eq!(listed.status, Status::Success);
    assert_eq!(listed.body.len(), 1);
    assert_eq!(listed.body[&1].cal(), 123);
}

#[test]
fn a_meal_is_found_and_deleted_by_identifier_or_by_name() {
    let mut state = stocked();
    assert_eq!(create_meal(meal_request("dinner", 1, 2, 3), &mut state).body, 1);
    assert_eq!(create_meal(meal_request("lunch", 1, 1, 1), &mut state).body, 2);
    let by_id = get_meal(String::from("2"), &state);
    assert_eq!(by_id.status, Status::Success);
    assert_eq!(by_id.body.unwrap().name(), "lunch");
    let by_name = get_meal(String::from("dinner"), &state);
    assert_eq!(by_name.body.unwrap().id(), 1);
    let missing = get_meal(String::from("3"), &state);
    assert_eq!((missing.status, missing.body.unwrap_err()), (Status::NotFound, -5));
    let deleted = delete_meal(String::from("dinner"), &mut state);
    assert_eq!((deleted.status, deleted.body), (Status::Success, 1));
    let again = delete_meal(String::from("1"), &mut state);
    assert_eq!((again.status, again.body), (Status::NotFound, -5));
    let other = delete_meal(String::from("2"), &mut state);
    assert_eq!((other.status, other.body), (Status::Success, 2));
    assert!(get_meals(&state).body.is_empty());
}

#[test]
fn updating_a_meal_answers_every_failure_as_not_found() {
    let mut state = stocked();
    assert_eq!(create_meal(meal_request("dinner", 1, 2, 3), &mut state).body, 1);
    assert_eq!(create_meal(meal_request("lunch", 1, 1, 1), &mut state).body, 2);
    let updated = update_meal(1, meal_request("supper", 3, 3, 3), &mut state);
    assert_eq!((updated.status, updated.body), (Status::Success, 1));
    assert_eq!(state.get_meal_by_id(1).unwrap().cal(), 9);
    let missing = update_meal(9, meal_request("supper", 3, 3, 3), &mut state);
    assert_eq!((missing.status, missing.body), (Status::NotFound, -5));
    let taken = update_meal(1, meal_request("lunch", 3, 3, 3), &mut state);
    assert_eq!((taken.status, taken.body), (Status::NotFound, -2));
    let dangling = update_meal(1, meal_request("supper", 3, 3, 8), &mut state);
    assert_eq!((dangling.status, dangling.body), (Status::NotFound, -6));
    let garbled = update_meal(1, None, &mut state);
    assert_eq!((garbled.status, garbled.body), (Status::UnprocessableEntity, -1));
    assert_eq!(state.get_meal_by_id(1).unwrap().name(), "supper");
}
