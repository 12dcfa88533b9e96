//! Stored records and the recipe and shopping-list values handed to callers,
//! with their human-readable text.
use crate::text::{push_signed_decimal, push_text, signed_decimal};
use vstd::prelude::*;
use vstd::string::StringExecFns;

verus! {

/// A row of the ingredient catalog.
#[derive(Debug, Clone)]
pub struct IngredientRecord {
    pub id: i64,
    pub name: String,
    pub created_at: String,
}

/// A row of the recipe table.
#[derive(Debug, Clone)]
pub struct RecipeRecord {
    pub id: i64,
    pub name: String,
    pub instructions: Option<String>,
    pub created_at: String,
}

/// A row that links a recipe to an ingredient with a quantity.
#[derive(Debug, Clone)]
pub struct RecipeIngredientRecord {
    pub id: i64,
    pub recipe_id: i64,
    pub ingredient_id: i64,
    pub quantity_unit: String,
    pub notes: Option<String>,
    pub created_at: String,
}

/// A stored recipe with its ingredients in entry order.
#[derive(Debug, Clone)]
pub struct Recipe {
    pub id: i64,
    pub name: String,
    pub instructions: Option<String>,
    pub ingredients: Vec<RecipeIngredient>,
    pub created_at: String,
}

/// One ingredient of a stored recipe.
#[derive(Debug, Clone)]
pub struct RecipeIngredient {
    pub ingredient_id: i64,
    pub ingredient_name: String,
    pub quantity_unit: String,
    pub notes: Option<String>,
}

/// The quantities of one ingredient over several recipes.
#[derive(Debug, Clone)]
pub struct ShoppingListItem {
    pub ingredient_name: String,
    pub combined_quantity: String,
}

/// The line of one ingredient in a recipe's text.
pub open spec fn ingredient_text(i: RecipeIngredient) -> Seq<char> {
    "  - "@ + i.quantity_unit@ + " "@ + i.ingredient_name@ + match i.notes {
        Some(n) => " ("@ + n@ + ")"@,
        None => Seq::empty(),
    } + "\n"@
}

/// The lines of a recipe's ingredients, in order.
pub open spec fn ingredients_text(s: Seq<RecipeIngredient>) -> Seq<char>
    decreases s.len(),
{
    if s.len() == 0 {
        Seq::empty()
    } else {
        ingredients_text(s.drop_last()) + ingredient_text(s.last())
    }
}

/// The heading of a recipe's text, up to its ingredient lines.
pub open spec fn recipe_heading(r: Recipe) -> Seq<char> {
    "Recipe: "@ + r.name@ + "\n"@ + "ID: "@ + signed_decimal(r.id as int) + "\n"@ + "Created: "@
        + r.created_at@ + "\n"@ + "\nIngredients:\n"@
}

/// The human-readable text of a recipe.
pub open spec fn recipe_text(r: Recipe) -> Seq<char> {
    recipe_heading(r) + ingredients_text(r.ingredients@) + match r.instructions {
        Some(t) => "\nInstructions:\n"@ + t@ + "\n"@,
        None => Seq::empty(),
    }
}

impl Recipe {
    /// The recipe as text: name, id and creation time, one line per
    /// ingredient, and the instructions when there are any.
    pub fn to_string(&self) -> (r: String)
        ensures
            r@ == recipe_text(*self),
    {
        let mut output = String::from_str("Recipe: ");
        output.append(self.name.as_str());
        push_text(&mut output, "\n");
        push_text(&mut output, "ID: ");
        push_signed_decimal(&mut output, self.id);
        push_text(&mut output, "\n");
        push_text(&mut output, "Created: ");
        output.append(self.created_at.as_str());
        push_text(&mut output, "\n");
        push_text(&mut output, "\nIngredients:\n");
        assert(output@ =~= recipe_heading(*self));
        let mut i: usize = 0;
        while i < self.ingredients.len()
            invariant
                i <= self.ingredients@.len(),
                output@ == recipe_heading(*self) + ingredients_text(self.ingredients@.take(i as int)),
            decreases self.ingredients.len() - i,
        {
            let ingredient = &self.ingredients[i];
            let ghost before = output@;
            push_text(&mut output, "  - ");
            output.append(ingredient.quantity_unit.as_str());
            push_text(&mut output, " ");
            output.append(ingredient.ingredient_name.as_str());
            match &ingredient.notes {
                Some(notes) => {
                    push_text(&mut output, " (");
                    output.append(notes.as_str());
                    push_text(&mut output, ")");
                },
                None => {},
            }
            push_text(&mut output, "\n");
            proof {
                let t = self.ingredients@.take(i + 1);
                assert(t.drop_last() =~= self.ingredients@.take(i as int));
                assert(output@ =~= before + ingredient_text(*ingredient));
            }
            i = i + 1;
        }
        assert(self.ingredients@.take(self.ingredients@.len() as int) =~= self.ingredients@);
        match &self.instructions {
            Some(instructions) => {
                push_text(&mut output, "\nInstructions:\n");
                output.append(instructions.as_str());
                push_text(&mut output, "\n");
                assert(output@ =~= recipe_text(*self));
            },
            None => {
                assert(output@ =~= recipe_text(*self));
            },
        }
        output
    }
}

impl ShoppingListItem {
    /// The item as text: the ingredient's name, a colon and the quantities.
    pub fn to_string(&self) -> (r: String)
        ensures
            r@ == self.ingredient_name@ + ": "@ + self.combined_quantity@,
    {
        let mut output = self.ingredient_name.clone();
        push_text(&mut output, ": ");
        output.append(self.combined_quantity.as_str());
        output
    }
}

} // verus!
