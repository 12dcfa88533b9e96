//! Storage of recipes. The store itself is driven by the caller: this module
//! decides what to ask of it. A recipe is written by a [`RecipeWriter`], which
//! names one store command at a time and reads the store's reply to each; a
//! recipe is read back by assembling the rows that the caller fetched.
use crate::draft::{EntryView, IngredientStatus, RecipeContext};
use crate::error::FeedMeError;
use crate::models::{Recipe, RecipeIngredient, RecipeRecord};
use crate::screen::opt_view;
use crate::text::push_text;
use vstd::prelude::*;
use vstd::string::StringExecFns;

verus! {

/// An ingredient of a recipe to be stored. It names a catalog row by id, or by
/// name alone when its id is not known yet.
#[derive(Debug)]
pub struct IngredientRef {
    pub ingredient_id: Option<i64>,
    pub ingredient_name: String,
    pub quantity_unit: String,
    pub notes: Option<String>,
}

/// A recipe to be stored.
#[derive(Debug)]
pub struct NewRecipe {
    pub name: String,
    pub instructions: Option<String>,
    pub ingredients: Vec<IngredientRef>,
}

/// Instruction steps joined into one text, one step per line.
pub open spec fn joined_lines(steps: Seq<Seq<char>>) -> Seq<char>
    decreases steps.len(),
{
    if steps.len() == 0 {
        Seq::empty()
    } else if steps.len() == 1 {
        steps[0]
    } else {
        joined_lines(steps.drop_last()) + "\n"@ + steps.last()
    }
}

/// The catalog id that an ingredient status gives, if any.
pub open spec fn status_id(s: IngredientStatus) -> Option<i64> {
    match s {
        IngredientStatus::Existing(id) => Some(id),
        IngredientStatus::New => None,
    }
}

/// Text that is absent when empty.
pub open spec fn absent_if_empty(t: Seq<char>) -> Option<Seq<char>> {
    if t.len() == 0 {
        None
    } else {
        Some(t)
    }
}

/// `r` is the stored form of the draft entry `e`.
pub open spec fn ref_of_entry(r: IngredientRef, e: EntryView) -> bool {
    &&& r.ingredient_id == status_id(e.1)
    &&& r.ingredient_name@ == e.0
    &&& r.quantity_unit@ == e.2
    &&& opt_view(r.notes) == absent_if_empty(e.3)
}

/// A copy of an optional string.
fn copy_text(o: &Option<String>) -> (r: Option<String>)
    ensures
        r == *o,
{
    match o {
        Some(s) => Some(s.clone()),
        None => None,
    }
}

/// The text if it is not empty.
fn text_unless_empty(t: &String) -> (r: Option<String>)
    ensures
        opt_view(r) == absent_if_empty(t@),
{
    if t.as_str().is_empty() {
        None
    } else {
        Some(t.clone())
    }
}

/// Instruction steps joined into one text, one step per line.
pub fn join_lines(steps: &Vec<String>) -> (r: String)
    ensures
        r@ == joined_lines(steps@.map_values(|x: String| x@)),
{
    let ghost views = steps@.map_values(|x: String| x@);
    let mut out = String::new();
    let mut i: usize = 0;
    while i < steps.len()
        invariant
            i <= steps@.len(),
            views == steps@.map_values(|x: String| x@),
            out@ == joined_lines(views.take(i as int)),
        decreases steps.len() - i,
    {
        if i > 0 {
            push_text(&mut out, "\n");
        }
        out.append(steps[i].as_str());
        proof {
            let t = views.take(i + 1);
            assert(t.drop_last() =~= views.take(i as int));
            if i == 0 {
                assert(out@ =~= joined_lines(t));
            }
        }
        i = i + 1;
    }
    assert(views.take(steps@.len() as int) =~= views);
    out
}

/// `r` is the stored form of the draft `ctx`: same name, the steps joined one
/// per line and absent when there are none, and each entry in order as
/// `ref_of_entry` gives it.
pub open spec fn stores_draft(ctx: RecipeContext, r: NewRecipe) -> bool {
    &&& r.name@ == ctx.name@
    &&& opt_view(r.instructions) == (if ctx.instructions@.len() == 0 {
        None
    } else {
        Some(joined_lines(ctx.instructions@.map_values(|x: String| x@)))
    })
    &&& r.ingredients@.len() == ctx.entries().len()
    &&& forall|i: int| 0 <= i < r.ingredients@.len() ==> ref_of_entry(#[trigger] r.ingredients@[i], ctx.entries()[i])
}

impl RecipeContext {
    /// The finished draft as a recipe to be stored: empty notes become absent,
    /// the steps are joined one per line and are absent when there are none,
    /// and an ingredient new to the catalog is named without an id.
    pub fn to_new_recipe(&self) -> (r: NewRecipe)
        ensures
            stores_draft(*self, r),
    {
        let n = self.ingredient_count();
        let mut ingredients: Vec<IngredientRef> = Vec::new();
        let mut i: usize = 0;
        while i < n
            invariant
                n == self.entries().len(),
                i <= n,
                ingredients@.len() == i,
                forall|k: int| 0 <= k < i ==> ref_of_entry(#[trigger] ingredients@[k], self.entries()[k]),
            decreases n - i,
        {
            let (name, info) = self.ingredient_at(i);
            let ingredient_id = match info.status {
                IngredientStatus::Existing(id) => Some(id),
                IngredientStatus::New => None,
            };
            ingredients.push(IngredientRef {
                ingredient_id,
                ingredient_name: name.clone(),
                quantity_unit: info.quantity_unit.clone(),
                notes: text_unless_empty(&info.notes),
            });
            i = i + 1;
        }
        let instructions = if self.instructions.len() == 0 {
            None
        } else {
            Some(join_lines(&self.instructions))
        };
        NewRecipe { name: self.name.clone(), instructions, ingredients }
    }
}

impl NewRecipe {
    /// A stored-form copy of a recipe whose ingredients all carry their ids.
    pub fn from_recipe(recipe: &Recipe) -> (r: NewRecipe)
        ensures
            r.name == recipe.name,
            r.instructions == recipe.instructions,
            r.ingredients@.len() == recipe.ingredients@.len(),
            forall|i: int| 0 <= i < r.ingredients@.len() ==> {
                let x = #[trigger] r.ingredients@[i];
                let y = recipe.ingredients@[i];
                &&& x.ingredient_id == Some(y.ingredient_id)
                &&& x.ingredient_name == y.ingredient_name
                &&& x.quantity_unit == y.quantity_unit
                &&& x.notes == y.notes
            },
    {
        let mut ingredients: Vec<IngredientRef> = Vec::new();
        let mut i: usize = 0;
        while i < recipe.ingredients.len()
            invariant
                i <= recipe.ingredients@.len(),
                ingredients@.len() == i,
                forall|k: int| 0 <= k < i ==> {
                    let x = #[trigger] ingredients@[k];
                    let y = recipe.ingredients@[k];
                    &&& x.ingredient_id == Some(y.ingredient_id)
                    &&& x.ingredient_name == y.ingredient_name
                    &&& x.quantity_unit == y.quantity_unit
                    &&& x.notes == y.notes
                },
            decreases recipe.ingredients.len() - i,
        {
            let y = &recipe.ingredients[i];
            ingredients.push(IngredientRef {
                ingredient_id: Some(y.ingredient_id),
                ingredient_name: y.ingredient_name.clone(),
                quantity_unit: y.quantity_unit.clone(),
                notes: copy_text(&y.notes),
            });
            i = i + 1;
        }
        NewRecipe {
            name: recipe.name.clone(),
            instructions: copy_text(&recipe.instructions),
            ingredients,
        }
    }
}

/// Builds a stored recipe from its row, when the store had one, and its
/// ingredient rows in link order.
pub fn assemble_recipe(recipe_id: i64, record: Option<RecipeRecord>, ingredients: Vec<RecipeIngredient>) -> (r: Result<Recipe, FeedMeError>)
    ensures
        record is None ==> r == Err::<Recipe, FeedMeError>(FeedMeError::RecipeNotFound(recipe_id)),
        record matches Some(rec) ==> r == Ok::<Recipe, FeedMeError>(
            (Recipe {
                id: rec.id,
                name: rec.name,
                instructions: rec.instructions,
                ingredients,
                created_at: rec.created_at,
            }),
        ),
{
    match record {
        None => Err(FeedMeError::RecipeNotFound(recipe_id)),
        Some(rec) => Ok(
            Recipe {
                id: rec.id,
                name: rec.name,
                instructions: rec.instructions,
                ingredients,
                created_at: rec.created_at,
            },
        ),
    }
}

/// `n` query placeholders separated by commas.
pub open spec fn placeholders(n: nat) -> Seq<char>
    decreases n,
{
    if n == 0 {
        Seq::empty()
    } else if n == 1 {
        "?"@
    } else {
        placeholders((n - 1) as nat) + ", ?"@
    }
}

/// The query that reads the ingredient name and quantity of every link of `n`
/// recipes, ordered by name and then by link.
pub open spec fn shopping_query_text(n: nat) -> Seq<char> {
    "SELECT i.name AS ingredient_name, ri.quantity_unit FROM recipe_ingredients ri JOIN ingredients i ON ri.ingredient_id = i.id WHERE ri.recipe_id IN ("@
        + placeholders(n)
        + ") ORDER BY i.name, ri.id"@
}

/// The query that the shopping list of these recipes reads, with one
/// placeholder per recipe id; none when there are no recipes, as the list is
/// then empty without asking the store.
pub fn shopping_list_query(recipe_ids: &Vec<i64>) -> (r: Option<String>)
    ensures
        recipe_ids@.len() == 0 ==> r is None,
        recipe_ids@.len() > 0 ==> opt_view(r) == Some(shopping_query_text(recipe_ids@.len())),
{
    if recipe_ids.len() == 0 {
        return None;
    }
    let mut q = String::from_str(
        "SELECT i.name AS ingredient_name, ri.quantity_unit FROM recipe_ingredients ri JOIN ingredients i ON ri.ingredient_id = i.id WHERE ri.recipe_id IN (",
    );
    let ghost head = q@;
    let mut i: usize = 0;
    while i < recipe_ids.len()
        invariant
            i <= recipe_ids@.len(),
            q@ == head + placeholders(i as nat),
        decreases recipe_ids.len() - i,
    {
        if i == 0 {
            push_text(&mut q, "?");
        } else {
            push_text(&mut q, ", ?");
        }
        assert(q@ =~= head + placeholders((i + 1) as nat));
        i = i + 1;
    }
    push_text(&mut q, ") ORDER BY i.name, ri.id");
    assert(q@ =~= shopping_query_text(recipe_ids@.len()));
    Some(q)
}

} // verus!
