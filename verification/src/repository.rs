//! The in-process repository of dishes and meals.

pub mod catalog;
pub mod dish;
pub mod dish_repository;
pub mod error;
pub mod history;
pub mod id_allocator;
pub mod laws;
pub mod meal;
pub mod meal_repository;
pub mod nutrition_api_client;
pub mod state;
