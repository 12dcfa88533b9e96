//! The errors of recipe storage.
use crate::text::{push_signed_decimal, signed_decimal};
use vstd::prelude::*;
use vstd::string::StringExecFns;

verus! {

/// Why a storage operation failed.
#[derive(Debug, Clone)]
pub enum FeedMeError {
    /// The store failed; the transaction in flight was abandoned.
    Database(String),
    /// A catalog row of that name exists already.
    Conflict(String),
    /// No recipe has this id.
    RecipeNotFound(i64),
    /// No ingredient has this id.
    IngredientNotFound(i64),
}

/// The human-readable text of an error.
pub open spec fn error_text(e: FeedMeError) -> Seq<char> {
    match e {
        FeedMeError::Database(m) => "Database error: "@ + m@,
        FeedMeError::Conflict(m) => "Conflict: "@ + m@,
        FeedMeError::RecipeNotFound(id) => "Recipe not found with id: "@ + signed_decimal(id as int),
        FeedMeError::IngredientNotFound(id) => "Ingredient not found with id: "@ + signed_decimal(
            id as int,
        ),
    }
}

impl FeedMeError {
    /// The error as text.
    pub fn message(&self) -> (r: String)
        ensures
            r@ == error_text(*self),
    {
        match self {
            FeedMeError::Database(m) => {
                let mut out = String::from_str("Database error: ");
                out.append(m.as_str());
                out
            },
            FeedMeError::Conflict(m) => {
                let mut out = String::from_str("Conflict: ");
                out.append(m.as_str());
                out
            },
            FeedMeError::RecipeNotFound(id) => {
                let mut out = String::from_str("Recipe not found with id: ");
                push_signed_decimal(&mut out, *id);
                out
            },
            FeedMeError::IngredientNotFound(id) => {
                let mut out = String::from_str("Ingredient not found with id: ");
                push_signed_decimal(&mut out, *id);
                out
            },
        }
    }
}

} // verus!
