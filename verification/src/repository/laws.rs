use crate::repository::catalog::{
    lemma_add_wf, lemma_delete_by_name_wf, lemma_delete_wf, lemma_replace_wf, Catalog, Entity,
};
use crate::repository::dish::{dish_of, DishView};
use crate::repository::dish_repository::{create_dish, create_dish_result};
use crate::repository::error::RepoError;
use crate::repository::history::Operation;
use crate::repository::meal::MealView;
use crate::repository::meal_repository::{
    create_meal, create_meal_result, meal_from, references_resolve, update_meal,
    update_meal_result,
};
use crate::repository::nutrition_api_client::{clamp_amount, NutritionInformation};
use crate::repository::state::StateView;
use vstd::prelude::*;

verus! {

/// Every operation leaves the two indices of each kind in agreement.
pub proof fn law_operation_keeps_indices_consistent(state: StateView, op: Operation)
    requires
        state.wf(),
        state.admits(op),
    ensures
        state.apply(op).wf(),
{
    match op {
        Operation::CreateDish { name, data } => {
            if create_dish_result(state.dishes, name, data) is Ok {
                lemma_add_wf(state.dishes, dish_of(state.dishes.next_id(), name, data->Ok_0));
            }
        },
        Operation::DeleteDishById { id } => {
            lemma_delete_wf(state.dishes, id);
        },
        Operation::DeleteDishByName { name } => {
            lemma_delete_by_name_wf(state.dishes, name);
        },
        Operation::CreateMeal { name, appetizer, main, dessert } => {
            if create_meal_result(state.meals, state.dishes, name, appetizer, main, dessert)
                is Ok {
                lemma_add_wf(
                    state.meals,
                    meal_from(state.dishes, state.meals.next_id(), name, appetizer, main, dessert),
                );
            }
        },
        Operation::UpdateMeal { id, name, appetizer, main, dessert } => {
            if update_meal_result(state.meals, state.dishes, id, name, appetizer, main, dessert)
                is Ok {
                lemma_replace_wf(
                    state.meals,
                    meal_from(state.dishes, id, name, appetizer, main, dessert),
                );
            }
        },
        Operation::DeleteMealById { id } => {
            lemma_delete_wf(state.meals, id);
        },
        Operation::DeleteMealByName { name } => {
            lemma_delete_by_name_wf(state.meals, name);
        },
    }
}

/// An operation never lowers a counter, and never brings an identifier
/// into use that is not above the counter it found.
pub proof fn law_operation_uses_fresh_identifiers(state: StateView, op: Operation)
    requires
        state.wf(),
        state.admits(op),
    ensures
        state.dishes.counter <= state.apply(op).dishes.counter,
        state.meals.counter <= state.apply(op).meals.counter,
        forall|id: i32|
            state.apply(op).dishes.by_id.contains_key(id) && !state.dishes.by_id.contains_key(id)
                ==> id > state.dishes.counter,
        forall|id: i32|
            state.apply(op).meals.by_id.contains_key(id) && !state.meals.by_id.contains_key(id)
                ==> id > state.meals.counter,
{
}

/// Whatever is asked of the repository, in whatever order, the two indices
/// of each kind agree afterwards.
pub proof fn law_indices_stay_consistent(state: StateView, ops: Seq<Operation>)
    requires
        state.wf(),
        state.admits_all(ops),
    ensures
        state.run(ops).wf(),
    decreases ops.len(),
{
    if ops.len() > 0 {
        law_indices_stay_consistent(state, ops.drop_last());
        law_operation_keeps_indices_consistent(state.run(ops.drop_last()), ops.last());
    }
}

/// Whatever is asked of the repository, deletions included, a counter
/// never goes back.
pub proof fn law_counters_never_go_back(state: StateView, ops: Seq<Operation>)
    requires
        state.wf(),
        state.admits_all(ops),
    ensures
        state.dishes.counter <= state.run(ops).dishes.counter,
        state.meals.counter <= state.run(ops).meals.counter,
    decreases ops.len(),
{
    if ops.len() > 0 {
        law_counters_never_go_back(state, ops.drop_last());
        law_indices_stay_consistent(state, ops.drop_last());
        law_operation_uses_fresh_identifiers(state.run(ops.drop_last()), ops.last());
    }
}

/// Identifiers of one kind are issued in strictly increasing order: of two
/// creations of dishes, or of meals, that both succeed, the later one
/// answers the greater identifier, whatever was asked in between. So no
/// identifier is issued twice, not even after its entity was deleted.
pub proof fn law_identifiers_strictly_increase(
    state: StateView,
    first: Operation,
    between: Seq<Operation>,
    second: Operation,
)
    requires
        state.wf(),
        (first is CreateDish && second is CreateDish) || (first is CreateMeal
            && second is CreateMeal),
        state.admits(first),
        state.apply(first).admits_all(between),
        state.apply(first).run(between).admits(second),
        state.answer(first) is Ok,
        state.apply(first).run(between).answer(second) is Ok,
    ensures
        state.answer(first)->Ok_0 < state.apply(first).run(between).answer(second)->Ok_0,
{
    law_operation_keeps_indices_consistent(state, first);
    law_counters_never_go_back(state.apply(first), between);
}

/// A repository starts consistent, and the first identifier of each kind
/// is 1.
pub proof fn law_first_identifier_is_one()
    ensures
        Catalog::<DishView>::empty().wf(),
        Catalog::<MealView>::empty().wf(),
        Catalog::<DishView>::empty().next_id() == 1,
        Catalog::<MealView>::empty().next_id() == 1,
{
}

/// No two entities of a kind share a name.
pub proof fn law_names_are_unique<E: Entity>(catalog: Catalog<E>, one: i32, other: i32)
    requires
        catalog.wf(),
        catalog.by_id.contains_key(one),
        catalog.by_id.contains_key(other),
        catalog.by_id[one].name() == catalog.by_id[other].name(),
    ensures
        one == other,
{
}

/// Every stored entity is found by its identifier and by its name, and is
/// the same either way; a name that leads anywhere leads to an entity that
/// bears it. So a lookup by name never misses an entity that is there.
pub proof fn law_entity_is_found_either_way<E: Entity>(
    catalog: Catalog<E>,
    id: i32,
    name: Seq<char>,
)
    requires
        catalog.wf(),
    ensures
        catalog.by_id.contains_key(id) ==> catalog.get_by_id(id) == Ok::<E, RepoError>(
            catalog.by_id[id],
        ) && catalog.get_by_name(catalog.by_id[id].name()) == catalog.get_by_id(id),
        catalog.get_by_name(name) matches Ok(entity) ==> entity.name() == name
            && catalog.get_by_id(entity.id()) == Ok::<E, RepoError>(entity),
        catalog.get_by_name(name) is Err <==> !catalog.by_name.contains_key(name),
{
}

/// Of two dishes created under the same exact name, the second is refused
/// as a duplicate, whatever the nutrition lookup delivered for it, and no
/// second dish is stored: the dishes stay as the first creation left them.
pub proof fn law_second_dish_of_a_name_is_refused(
    dishes: Catalog<DishView>,
    name: Seq<char>,
    first: Result<NutritionInformation, RepoError>,
    second: Result<NutritionInformation, RepoError>,
)
    requires
        create_dish_result(dishes, name, first) is Ok,
    ensures
        create_dish_result(create_dish(dishes, name, first), name, second) == Err::<
            i32,
            RepoError,
        >(RepoError::DuplicateName),
        create_dish(create_dish(dishes, name, first), name, second) == create_dish(
            dishes,
            name,
            first,
        ),
{
}

/// Names are compared exactly: a dish created under one name takes no
/// other name, however alike, so a name that was free before is free after.
pub proof fn law_dish_takes_its_own_name_only(
    dishes: Catalog<DishView>,
    name: Seq<char>,
    data: Result<NutritionInformation, RepoError>,
    other: Seq<char>,
)
    requires
        other != name,
    ensures
        create_dish(dishes, name, data).by_name.contains_key(other) == dishes.by_name.contains_key(
            other,
        ),
{
}

/// Of two meals created under the same exact name, the second is refused as
/// a duplicate, whatever dishes it names, and the meals stay as the first
/// creation left them.
pub proof fn law_second_meal_of_a_name_is_refused(
    meals: Catalog<MealView>,
    dishes: Catalog<DishView>,
    later_dishes: Catalog<DishView>,
    name: Seq<char>,
    first: (i32, i32, i32),
    second: (i32, i32, i32),
)
    requires
        create_meal_result(meals, dishes, name, first.0, first.1, first.2) is Ok,
    ensures
        ({
            let after = create_meal(meals, dishes, name, first.0, first.1, first.2);
            &&& create_meal_result(after, later_dishes, name, second.0, second.1, second.2)
                == Err::<i32, RepoError>(RepoError::DuplicateName)
            &&& create_meal(after, later_dishes, name, second.0, second.1, second.2) == after
        }),
{
}

/// Once an entity is deleted by its identifier, it is found neither by that
/// identifier nor by the name it had.
pub proof fn law_deleted_entity_is_not_found<E: Entity>(catalog: Catalog<E>, id: i32)
    requires
        catalog.wf(),
        catalog.delete_by_id_result(id) is Ok,
    ensures
        catalog.delete_by_id(id).get_by_id(id) == Err::<E, RepoError>(RepoError::NotFound),
        catalog.delete_by_id(id).get_by_name(catalog.by_id[id].name()) == Err::<E, RepoError>(
            RepoError::NotFound,
        ),
{
}

/// Once an entity is deleted by its name, it is found neither by that name
/// nor by the identifier it had.
pub proof fn law_entity_deleted_by_name_is_not_found<E: Entity>(
    catalog: Catalog<E>,
    name: Seq<char>,
)
    requires
        catalog.wf(),
        catalog.delete_by_name_result(name) is Ok,
    ensures
        catalog.delete_by_name(name).get_by_name(name) == Err::<E, RepoError>(
            RepoError::NotFound,
        ),
        catalog.delete_by_name(name).get_by_id(catalog.by_name[name]) == Err::<E, RepoError>(
            RepoError::NotFound,
        ),
{
}

/// The identifier of a deleted dish never comes back: whatever is asked of
/// the repository afterwards, no dish is found by it.
pub proof fn law_deleted_dish_identifier_stays_free(
    state: StateView,
    id: i32,
    ops: Seq<Operation>,
)
    requires
        state.wf(),
        state.dishes.delete_by_id_result(id) is Ok,
        state.apply(Operation::DeleteDishById { id }).admits_all(ops),
    ensures
        state.apply(Operation::DeleteDishById { id }).run(ops).dishes.get_by_id(id) == Err::<
            DishView,
            RepoError,
        >(RepoError::NotFound),
    decreases ops.len(),
{
    let deleted = state.apply(Operation::DeleteDishById { id });
    law_operation_keeps_indices_consistent(state, Operation::DeleteDishById { id });
    if ops.len() > 0 {
        let before = deleted.run(ops.drop_last());
        law_deleted_dish_identifier_stays_free(state, id, ops.drop_last());
        law_indices_stay_consistent(deleted, ops.drop_last());
        law_counters_never_go_back(deleted, ops.drop_last());
        law_operation_uses_fresh_identifiers(before, ops.last());
    }
}

/// A meal that names a dish which does not exist is refused, and neither
/// index of the meals gains an entry. The refusal is `InvalidReference`
/// where the name is free; a name that is taken is reported first.
pub proof fn law_meal_of_missing_dish_is_refused(
    meals: Catalog<MealView>,
    dishes: Catalog<DishView>,
    name: Seq<char>,
    appetizer: i32,
    main: i32,
    dessert: i32,
)
    requires
        !references_resolve(dishes, appetizer, main, dessert),
    ensures
        create_meal(meals, dishes, name, appetizer, main, dessert) == meals,
        create_meal_result(meals, dishes, name, appetizer, main, dessert) is Err,
        !meals.by_name.contains_key(name) ==> create_meal_result(
            meals,
            dishes,
            name,
            appetizer,
            main,
            dessert,
        ) == Err::<i32, RepoError>(RepoError::InvalidReference),
{
}

/// A meal cannot take the name of another meal: the update is refused as
/// a duplicate, and the meal keeps its name, its dishes and its totals, as
/// every other meal does.
pub proof fn law_rename_to_taken_name_is_refused(
    meals: Catalog<MealView>,
    dishes: Catalog<DishView>,
    id: i32,
    name: Seq<char>,
    appetizer: i32,
    main: i32,
    dessert: i32,
)
    requires
        meals.wf(),
        meals.by_id.contains_key(id),
        meals.by_name.contains_key(name),
        meals.by_name[name] != id,
    ensures
        update_meal_result(meals, dishes, id, name, appetizer, main, dessert) == Err::<
            i32,
            RepoError,
        >(RepoError::DuplicateName),
        update_meal(meals, dishes, id, name, appetizer, main, dessert) == meals,
{
}

/// An update that fails, for whatever reason, changes nothing: a meal is
/// never left under a new name with its former dishes.
pub proof fn law_failed_update_changes_nothing(
    meals: Catalog<MealView>,
    dishes: Catalog<DishView>,
    id: i32,
    name: Seq<char>,
    appetizer: i32,
    main: i32,
    dessert: i32,
)
    requires
        update_meal_result(meals, dishes, id, name, appetizer, main, dessert) is Err,
    ensures
        update_meal(meals, dishes, id, name, appetizer, main, dessert) == meals,
{
}

/// Whatever is done to the dishes leaves every meal as it was, those that
/// refer to a deleted dish too: their references and their totals are not
/// followed up.
pub proof fn law_dish_operations_leave_meals_alone(state: StateView, op: Operation)
    requires
        op is CreateDish || op is DeleteDishById || op is DeleteDishByName,
    ensures
        state.apply(op).meals == state.meals,
{
}

/// A dish never changes: whatever is asked of the repository, a dish that
/// is still stored is what it was.
pub proof fn law_dish_never_changes(state: StateView, ops: Seq<Operation>, id: i32)
    requires
        state.wf(),
        state.admits_all(ops),
        state.dishes.by_id.contains_key(id),
    ensures
        state.run(ops).dishes.by_id.contains_key(id) ==> state.run(ops).dishes.by_id[id]
            == state.dishes.by_id[id],
    decreases ops.len(),
{
    if ops.len() > 0 {
        let before = state.run(ops.drop_last());
        law_dish_never_changes(state, ops.drop_last(), id);
        law_indices_stay_consistent(state, ops.drop_last());
        law_counters_never_go_back(state, ops.drop_last());
        law_operation_uses_fresh_identifiers(before, ops.last());
    }
}

/// A meal refers to exactly the three dishes it was made of, and its
/// totals are the sums over those dishes as they were then.
pub proof fn law_created_meal_holds_its_dishes(
    meals: Catalog<MealView>,
    dishes: Catalog<DishView>,
    name: Seq<char>,
    appetizer: i32,
    main: i32,
    dessert: i32,
)
    requires
        dishes.wf(),
        create_meal_result(meals, dishes, name, appetizer, main, dessert) is Ok,
    ensures
        ({
            let id = meals.next_id();
            let meal = create_meal(meals, dishes, name, appetizer, main, dessert).by_id[id];
            &&& create_meal_result(meals, dishes, name, appetizer, main, dessert) == Ok::<
                i32,
                RepoError,
            >(id)
            &&& meal.id == id
            &&& meal.name == name
            &&& meal.appetizer == appetizer
            &&& meal.main == main
            &&& meal.dessert == dessert
            &&& meal.cal == clamp_amount(
                dishes.by_id[appetizer].cal + dishes.by_id[main].cal + dishes.by_id[dessert].cal,
            )
            &&& meal.sodium == clamp_amount(
                dishes.by_id[appetizer].sodium + dishes.by_id[main].sodium
                    + dishes.by_id[dessert].sodium,
            )
            &&& meal.sugar == clamp_amount(
                dishes.by_id[appetizer].sugar + dishes.by_id[main].sugar
                    + dishes.by_id[dessert].sugar,
            )
        }),
{
}

/// An updated meal keeps its identifier, bears the name given, refers to
/// exactly the three dishes given, and its totals are the sums over those
/// dishes as they are at the update; every other meal stays as it was.
pub proof fn law_updated_meal_holds_its_dishes(
    meals: Catalog<MealView>,
    dishes: Catalog<DishView>,
    id: i32,
    name: Seq<char>,
    appetizer: i32,
    main: i32,
    dessert: i32,
    other: i32,
)
    requires
        dishes.wf(),
        update_meal_result(meals, dishes, id, name, appetizer, main, dessert) is Ok,
        other != id,
    ensures
        ({
            let after = update_meal(meals, dishes, id, name, appetizer, main, dessert);
            let meal = after.by_id[id];
            &&& update_meal_result(meals, dishes, id, name, appetizer, main, dessert) == Ok::<
                i32,
                RepoError,
            >(id)
            &&& after.counter == meals.counter
            &&& after.by_id.contains_key(id)
            &&& meal.id == id
            &&& meal.name == name
            &&& meal.appetizer == appetizer
            &&& meal.main == main
            &&& meal.dessert == dessert
            &&& meal.cal == clamp_amount(
                dishes.by_id[appetizer].cal + dishes.by_id[main].cal + dishes.by_id[dessert].cal,
            )
            &&& meal.sodium == clamp_amount(
                dishes.by_id[appetizer].sodium + dishes.by_id[main].sodium
                    + dishes.by_id[dessert].sodium,
            )
            &&& meal.sugar == clamp_amount(
                dishes.by_id[appetizer].sugar + dishes.by_id[main].sugar
                    + dishes.by_id[dessert].sugar,
            )
            &&& after.by_id.contains_key(other) == meals.by_id.contains_key(other)
            &&& meals.by_id.contains_key(other) ==> after.by_id[other] == meals.by_id[other]
        }),
{
}

} // verus!
