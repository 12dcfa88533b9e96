//! Recipe entry and storage planning: an interactive entry wizard that builds a
//! recipe draft key by key, the plan of the transaction that stores a recipe, and
//! the aggregation of stored quantities into a shopping list.
pub mod draft;
pub mod error;
pub mod model;
pub mod models;
pub mod persist;
pub mod screen;
pub mod shopping;
pub mod states;
pub mod text;
pub mod wizard;
pub mod writer;
