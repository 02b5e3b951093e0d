use crate::api::path::{parse_id, spec_parse_id};
use crate::api::response::{
    answer, answer_of, not_implemented, undecodable, Reply, Status, UNDECODABLE,
};
use crate::repository::catalog::Catalog;
use crate::repository::error::RepoError;
use crate::repository::meal::{Meal, MealView};
use crate::repository::meal_repository::create_meal as meals_after_create;
use crate::repository::meal_repository::update_meal as meals_after_update;
use crate::repository::meal_repository::{create_meal_result, meal_views, update_meal_result};
use crate::repository::state::AppState;
use std::collections::HashMap;
use vstd::prelude::*;

verus! {

/// The body of a request to create or to update a meal.
#[derive(Debug)]
pub struct CreateMealRequest {
    pub name: String,
    pub appetizer: i32,
    pub main: i32,
    pub dessert: i32,
}

/// The meal that a path segment stands for: the one with that identifier
/// where the segment writes an identifier, else the one with that name.
pub open spec fn find_meal(meals: Catalog<MealView>, path: Seq<char>) -> Result<
    MealView,
    RepoError,
> {
    match spec_parse_id(path) {
        Some(id) => meals.get_by_id(id),
        None => meals.get_by_name(path),
    }
}

/// What deleting the meal that a path segment stands for answers.
pub open spec fn delete_meal_result(meals: Catalog<MealView>, path: Seq<char>) -> Result<
    i32,
    RepoError,
> {
    match spec_parse_id(path) {
        Some(id) => meals.delete_by_id_result(id),
        None => meals.delete_by_name_result(path),
    }
}

/// The meals after deleting the one that a path segment stands for.
pub open spec fn delete_meal_outcome(meals: Catalog<MealView>, path: Seq<char>) -> Catalog<
    MealView,
> {
    match spec_parse_id(path) {
        Some(id) => meals.delete_by_id(id),
        None => meals.delete_by_name(path),
    }
}

/// Whether `create_meal` can be asked with this request: where it would
/// store the meal, an identifier must be left to give it.
pub open spec fn admits(request: Option<CreateMealRequest>, state: AppState) -> bool {
    request matches Some(body) ==> (create_meal_result(
        state@.meals,
        state@.dishes,
        body.name@,
        body.appetizer,
        body.main,
        body.dessert,
    ) is Ok ==> state@.meals.has_room())
}

/// Whether `create_meal` can be asked with this request.
pub fn can_create_meal(request: &Option<CreateMealRequest>, state: &AppState) -> (admitted: bool)
    ensures
        admitted == admits(*request, *state),
{
    match request {
        None => true,
        Some(body) => state.admits_meal(&body.name, &body.appetizer, &body.main, &body.dessert),
    }
}

/// Creates a meal, once the content type of the request was accepted.
///
/// `request` is the decoded body, or `None` where it could not be decoded.
/// The meal is stored and its identifier answered as created, or the
/// failure is answered and nothing changes.
pub fn create_meal(request: Option<CreateMealRequest>, state: &mut AppState) -> (reply: Reply<i32>)
    requires
        admits(request, *old(state)),
    ensures
        match request {
            None => reply == (Reply { status: Status::UnprocessableEntity, body: UNDECODABLE })
                && final(state)@ == old(state)@,
            Some(body) => {
                &&& reply == answer_of(
                    create_meal_result(
                        old(state)@.meals,
                        old(state)@.dishes,
                        body.name@,
                        body.appetizer,
                        body.main,
                        body.dessert,
                    ),
                    Status::Created,
                    Status::UnprocessableEntity,
                )
                &&& final(state)@.meals == meals_after_create(
                    old(state)@.meals,
                    old(state)@.dishes,
                    body.name@,
                    body.appetizer,
                    body.main,
                    body.dessert,
                )
                &&& final(state)@.dishes == old(state)@.dishes
            },
        },
{
    match request {
        None => undecodable(),
        Some(data) => {
            let meal_id = state.create_meal(data.name, &data.appetizer, &data.main, &data.dessert);
            answer(meal_id, Status::Created, Status::UnprocessableEntity)
        },
    }
}

/// All meals, by identifier.
pub fn get_meals(state: &AppState) -> (reply: Reply<HashMap<i32, Meal>>)
    ensures
        reply.status == Status::Success,
        meal_views(reply.body@) == state@.meals.by_id,
{
    Reply { status: Status::Success, body: state.get_meals() }
}

/// Deleting all meals at once is not offered.
pub fn delete_meals() -> (reply: Reply<String>)
    ensures
        reply.status == Status::MethodNotAllowed,
        reply.body@ == "Not implemented"@,
{
    not_implemented()
}

/// The meal that a path segment stands for, or the code of `NotFound`.
pub fn get_meal(path: String, state: &AppState) -> (reply: Reply<Result<Meal, i32>>)
    ensures
        match find_meal(state@.meals, path@) {
            Ok(meal) => reply.status == Status::Success && reply.body is Ok
                && reply.body->Ok_0@ == meal,
            Err(_) => reply.status == Status::NotFound && reply.body is Err
                && reply.body->Err_0 == RepoError::NotFound.spec_code(),
        },
{
    let meal = match parse_id(path.as_str()) {
        Some(id) => state.get_meal_by_id(id),
        None => state.get_meal_by_name(&path),
    };
    match meal {
        Ok(data) => Reply { status: Status::Success, body: Ok(data) },
        Err(_) => Reply { status: Status::NotFound, body: Err(RepoError::NotFound.code()) },
    }
}

/// Deletes the meal that a path segment stands for.
pub fn delete_meal(path: String, state: &mut AppState) -> (reply: Reply<i32>)
    ensures
        reply == answer_of(
            delete_meal_result(old(state)@.meals, path@),
            Status::Success,
            Status::NotFound,
        ),
        final(state)@.meals == delete_meal_outcome(old(state)@.meals, path@),
        final(state)@.dishes == old(state)@.dishes,
{
    let res = match parse_id(path.as_str()) {
        Some(id) => state.delete_meal_by_id(&id),
        None => state.delete_meal_by_name(&path),
    };
    answer(res, Status::Success, Status::NotFound)
}

/// Updates the meal with the identifier `meal_id`, once the content type of
/// the request was accepted.
///
/// `request` is the decoded body, or `None` where it could not be decoded.
/// The meal is made anew and its identifier answered, or the failure is
/// answered as not found, whatever failure it is, and nothing changes.
pub fn update_meal(meal_id: i32, request: Option<CreateMealRequest>, state: &mut AppState) -> (reply:
    Reply<i32>)
    ensures
        match request {
            None => reply == (Reply { status: Status::UnprocessableEntity, body: UNDECODABLE })
                && final(state)@ == old(state)@,
            Some(body) => {
                &&& reply == answer_of(
                    update_meal_result(
                        old(state)@.meals,
                        old(state)@.dishes,
                        meal_id,
                        body.name@,
                        body.appetizer,
                        body.main,
                        body.dessert,
                    ),
                    Status::Success,
                    Status::NotFound,
                )
                &&& final(state)@.meals == meals_after_update(
                    old(state)@.meals,
                    old(state)@.dishes,
                    meal_id,
                    body.name@,
                    body.appetizer,
                    body.main,
                    body.dessert,
                )
                &&& final(state)@.dishes == old(state)@.dishes
            },
        },
{
    match request {
        None => undecodable(),
        Some(data) => {
            let res = state.update_meal(
                &meal_id,
                &data.name,
                &data.appetizer,
                &data.main,
                &data.dessert,
            );
            answer(res, Status::Success, Status::NotFound)
        },
    }
}

} // verus!
