use crate::api::path::{parse_id, spec_parse_id};
use crate::api::response::{
    answer, answer_of, not_implemented, undecodable, Reply, Status, UNDECODABLE,
};
use crate::repository::catalog::Catalog;
use crate::repository::dish::{Dish, DishView};
use crate::repository::dish_repository::{create_dish_result, dish_views};
use crate::repository::dish_repository::create_dish as dishes_after_create;
use crate::repository::error::RepoError;
use crate::repository::nutrition_api_client::NutritionInformation;
use crate::repository::state::AppState;
use std::collections::HashMap;
use vstd::prelude::*;

verus! {

/// The body of a request to create a dish.
#[derive(Debug)]
pub struct CreateDishRequest {
    pub name: String,
}

/// What is to be done next for a request to create a dish.
#[derive(Debug)]
pub enum CreateDishStep {
    /// Nothing more: this is the response.
    Done(Reply<i32>),
    /// The nutrition facts of this name are to be looked up; the outcome
    /// goes to `finish_create_dish`.
    Lookup(String),
}

/// The dish that a path segment stands for: the one with that identifier
/// where the segment writes an identifier, else the one with that name.
pub open spec fn find_dish(dishes: Catalog<DishView>, path: Seq<char>) -> Result<
    DishView,
    RepoError,
> {
    match spec_parse_id(path) {
        Some(id) => dishes.get_by_id(id),
        None => dishes.get_by_name(path),
    }
}

/// What deleting the dish that a path segment stands for answers.
pub open spec fn delete_dish_result(dishes: Catalog<DishView>, path: Seq<char>) -> Result<
    i32,
    RepoError,
> {
    match spec_parse_id(path) {
        Some(id) => dishes.delete_by_id_result(id),
        None => dishes.delete_by_name_result(path),
    }
}

/// The dishes after deleting the one that a path segment stands for.
pub open spec fn delete_dish_outcome(dishes: Catalog<DishView>, path: Seq<char>) -> Catalog<
    DishView,
> {
    match spec_parse_id(path) {
        Some(id) => dishes.delete_by_id(id),
        None => dishes.delete_by_name(path),
    }
}

/// All dishes, by identifier.
pub fn get_dishes(state: &AppState) -> (reply: Reply<HashMap<i32, Dish>>)
    ensures
        reply.status == Status::Success,
        dish_views(reply.body@) == state@.dishes.by_id,
{
    Reply { status: Status::Success, body: state.get_dishes() }
}

/// Takes up a request to create a dish, once its content type was accepted.
///
/// `request` is the decoded body, or `None` where it could not be decoded.
/// An undecodable body and a name that a dish already has are answered at
/// once; for any other name the nutrition lookup comes next.
pub fn create_dish(request: Option<CreateDishRequest>, state: &AppState) -> (step: CreateDishStep)
    ensures
        match request {
            None => step == CreateDishStep::Done(
                Reply { status: Status::UnprocessableEntity, body: UNDECODABLE },
            ),
            Some(body) => if state@.dishes.by_name.contains_key(body.name@) {
                step == CreateDishStep::Done(
                    answer_of(
                        Err(RepoError::DuplicateName),
                        Status::Created,
                        Status::UnprocessableEntity,
                    ),
                )
            } else {
                step == CreateDishStep::Lookup(body.name)
            },
        },
{
    match request {
        None => CreateDishStep::Done(undecodable()),
        Some(body) => match state.check_dish_name(&body.name) {
            Err(error) => CreateDishStep::Done(
                answer(Err(error), Status::Created, Status::UnprocessableEntity),
            ),
            Ok(_) => CreateDishStep::Lookup(body.name),
        },
    }
}

/// Completes a request to create a dish with what the nutrition lookup
/// delivered: the dish is stored and its identifier answered as created,
/// or the failure is answered and nothing changes.
pub fn finish_create_dish(
    name: String,
    data: Result<NutritionInformation, RepoError>,
    state: &mut AppState,
) -> (reply: Reply<i32>)
    requires
        create_dish_result(old(state)@.dishes, name@, data) is Ok ==> old(
            state,
        )@.dishes.has_room(),
    ensures
        reply == answer_of(
            create_dish_result(old(state)@.dishes, name@, data),
            Status::Created,
            Status::UnprocessableEntity,
        ),
        final(state)@.dishes == dishes_after_create(old(state)@.dishes, name@, data),
        final(state)@.meals == old(state)@.meals,
{
    let result = state.create_dish(name, data);
    answer(result, Status::Created, Status::UnprocessableEntity)
}

/// Deleting all dishes at once is not offered.
pub fn delete_dishes() -> (reply: Reply<String>)
    ensures
        reply.status == Status::MethodNotAllowed,
        reply.body@ == "Not implemented"@,
{
    not_implemented()
}

/// The dish that a path segment stands for, or the code of `NotFound`.
pub fn get_dish(path: String, state: &AppState) -> (reply: Reply<Result<Dish, i32>>)
    ensures
        match find_dish(state@.dishes, path@) {
            Ok(dish) => reply.status == Status::Success && reply.body is Ok
                && reply.body->Ok_0@ == dish,
            Err(_) => reply.status == Status::NotFound && reply.body is Err
                && reply.body->Err_0 == RepoError::NotFound.spec_code(),
        },
{
    let dish = match parse_id(path.as_str()) {
        Some(id) => state.get_dish_by_id(id),
        None => state.get_dish_by_name(path),
    };
    match dish {
        Ok(data) => Reply { status: Status::Success, body: Ok(data) },
        Err(_) => Reply { status: Status::NotFound, body: Err(RepoError::NotFound.code()) },
    }
}

/// Deletes the dish that a path segment stands for.
pub fn delete_dish(path: String, state: &mut AppState) -> (reply: Reply<i32>)
    ensures
        reply == answer_of(
            delete_dish_result(old(state)@.dishes, path@),
            Status::Success,
            Status::NotFound,
        ),
        final(state)@.dishes == delete_dish_outcome(old(state)@.dishes, path@),
        final(state)@.meals == old(state)@.meals,
{
    match parse_id(path.as_str()) {
        Some(id) => delete_dish_by_id(id, state),
        None => delete_dish_by_name(path, state),
    }
}

/// Deletes the dish with this identifier.
pub fn delete_dish_by_id(dish_id: i32, state: &mut AppState) -> (reply: Reply<i32>)
    ensures
        reply == answer_of(
            old(state)@.dishes.delete_by_id_result(dish_id),
            Status::Success,
            Status::NotFound,
        ),
        final(state)@.dishes == old(state)@.dishes.delete_by_id(dish_id),
        final(state)@.meals == old(state)@.meals,
{
    let res = state.delete_dish_by_id(dish_id);
    answer(res, Status::Success, Status::NotFound)
}

/// Deletes the dish with this exact name.
pub fn delete_dish_by_name(name: String, state: &mut AppState) -> (reply: Reply<i32>)
    ensures
        reply == answer_of(
            old(state)@.dishes.delete_by_name_result(name@),
            Status::Success,
            Status::NotFound,
        ),
        final(state)@.dishes == old(state)@.dishes.delete_by_name(name@),
        final(state)@.meals == old(state)@.meals,
{
    let res = state.delete_dish_by_name(name);
    answer(res, Status::Success, Status::NotFound)
}

} // verus!
