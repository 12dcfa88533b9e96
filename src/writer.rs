//! The transaction that stores a recipe, as a state machine. The writer names
//! one store command at a time; the caller runs it and hands back the store's
//! reply. In order: begin, insert the recipe row, then for each ingredient in
//! order use its id, or look it up by name and create it when the catalog
//! lacks it, and insert its link row; then commit. Any failure rolls the
//! transaction back, so no part of the recipe is kept.
use crate::persist::NewRecipe;
use vstd::prelude::*;

verus! {

/// A command for the store. Positions refer to the ingredients of the recipe
/// being written.
#[derive(Debug, Clone, Copy, PartialEq, Eq, Structural)]
pub enum StoreCommand {
    BeginTransaction,
    /// Insert the recipe row, with the recipe's name and instructions.
    InsertRecipe,
    /// Look up the catalog id of the ingredient at this position by its name.
    FindIngredient(usize),
    /// Create a catalog row for the ingredient at this position.
    CreateIngredient(usize),
    /// Link the recipe to a catalog row, with the quantity and notes of the
    /// ingredient at this position.
    InsertLink { recipe_id: i64, ingredient_id: i64, position: usize },
    Commit,
    Rollback,
}

/// The store's answer to a command.
#[derive(Debug, Clone, Copy, PartialEq, Eq, Structural)]
pub enum StoreReply {
    /// The command succeeded and returns nothing.
    Done,
    /// A row was inserted under this id.
    Inserted(i64),
    /// The outcome of a lookup.
    Found(Option<i64>),
    /// The command failed.
    Failed,
}

/// Where a writer stands.
#[derive(Debug, Clone, Copy, PartialEq, Eq, Structural)]
pub enum WritePhase {
    Beginning,
    InsertingRecipe,
    Finding(usize),
    Creating(usize),
    Linking(usize),
    Committing,
    RollingBack,
    Committed(i64),
    Aborted,
}

/// What the caller does next.
#[derive(Debug, Clone, Copy, PartialEq, Eq, Structural)]
pub enum WriteStep {
    /// Run this command and hand back the reply.
    Run(StoreCommand),
    /// The recipe is stored under this id.
    Committed(i64),
    /// Nothing was stored.
    Aborted,
}

/// The ids that the recipe's ingredients carry, in order.
pub open spec fn ref_ids(r: NewRecipe) -> Seq<Option<i64>> {
    r.ingredients@.map_values(|x: crate::persist::IngredientRef| x.ingredient_id)
}

/// The command that handles the ingredient at `i`, or the commit once all are
/// linked.
pub open spec fn next_ingredient(ids: Seq<Option<i64>>, recipe_id: i64, i: int) -> (WritePhase, WriteStep) {
    if i >= ids.len() {
        (WritePhase::Committing, WriteStep::Run(StoreCommand::Commit))
    } else {
        match ids[i] {
            Some(x) => (
                WritePhase::Linking(i as usize),
                WriteStep::Run(StoreCommand::InsertLink { recipe_id, ingredient_id: x, position: i as usize }),
            ),
            None => (WritePhase::Finding(i as usize), WriteStep::Run(StoreCommand::FindIngredient(i as usize))),
        }
    }
}

/// The rollback that follows a failure inside the transaction.
pub open spec fn roll_back() -> (WritePhase, WriteStep) {
    (WritePhase::RollingBack, WriteStep::Run(StoreCommand::Rollback))
}

/// The phase and step that follow `reply` in `phase`, for a recipe whose
/// ingredients carry `ids` and whose row, once inserted, has `recipe_id`.
pub open spec fn writer_next(ids: Seq<Option<i64>>, phase: WritePhase, recipe_id: i64, reply: StoreReply) -> (WritePhase, WriteStep) {
    match phase {
        WritePhase::Beginning => if reply == StoreReply::Done {
            (WritePhase::InsertingRecipe, WriteStep::Run(StoreCommand::InsertRecipe))
        } else {
            (WritePhase::Aborted, WriteStep::Aborted)
        },
        WritePhase::InsertingRecipe => match reply {
            StoreReply::Inserted(id) => next_ingredient(ids, id, 0),
            _ => roll_back(),
        },
        WritePhase::Finding(i) => match reply {
            StoreReply::Found(Some(x)) => (
                WritePhase::Linking(i),
                WriteStep::Run(StoreCommand::InsertLink { recipe_id, ingredient_id: x, position: i }),
            ),
            StoreReply::Found(None) => (WritePhase::Creating(i), WriteStep::Run(StoreCommand::CreateIngredient(i))),
            _ => roll_back(),
        },
        WritePhase::Creating(i) => match reply {
            StoreReply::Inserted(x) => (
                WritePhase::Linking(i),
                WriteStep::Run(StoreCommand::InsertLink { recipe_id, ingredient_id: x, position: i }),
            ),
            _ => roll_back(),
        },
        WritePhase::Linking(i) => if reply == StoreReply::Done {
            next_ingredient(ids, recipe_id, i + 1)
        } else {
            roll_back()
        },
        WritePhase::Committing => if reply == StoreReply::Done {
            (WritePhase::Committed(recipe_id), WriteStep::Committed(recipe_id))
        } else {
            (WritePhase::Aborted, WriteStep::Aborted)
        },
        WritePhase::RollingBack => (WritePhase::Aborted, WriteStep::Aborted),
        WritePhase::Committed(x) => (WritePhase::Committed(x), WriteStep::Committed(x)),
        WritePhase::Aborted => (WritePhase::Aborted, WriteStep::Aborted),
    }
}

/// The recipe id that the writer holds after `reply` in `phase`.
pub open spec fn writer_next_id(phase: WritePhase, recipe_id: i64, reply: StoreReply) -> i64 {
    match (phase, reply) {
        (WritePhase::InsertingRecipe, StoreReply::Inserted(id)) => id,
        _ => recipe_id,
    }
}

/// Writes one recipe.
pub struct RecipeWriter {
    pub recipe: NewRecipe,
    pub phase: WritePhase,
    /// The id of the recipe row, once it is inserted.
    pub recipe_id: i64,
}

impl RecipeWriter {
    /// Positions that the phase names are positions of the recipe.
    pub open spec fn wf(&self) -> bool {
        match self.phase {
            WritePhase::Finding(i) => i < self.recipe.ingredients@.len(),
            WritePhase::Creating(i) => i < self.recipe.ingredients@.len(),
            WritePhase::Linking(i) => i < self.recipe.ingredients@.len(),
            _ => true,
        }
    }

    /// A writer for `recipe`, and its first command, which begins the
    /// transaction.
    pub fn new(recipe: NewRecipe) -> (r: (RecipeWriter, StoreCommand))
        ensures
            r.0.wf(),
            r.0.recipe == recipe,
            r.0.phase == WritePhase::Beginning,
            r.1 == StoreCommand::BeginTransaction,
    {
        (RecipeWriter { recipe, phase: WritePhase::Beginning, recipe_id: 0 }, StoreCommand::BeginTransaction)
    }

    /// Moves on to the ingredient at `i`, or to the commit after the last.
    fn go_to_ingredient(&mut self, i: usize) -> (r: WriteStep)
        requires
            i <= old(self).recipe.ingredients@.len(),
        ensures
            final(self).recipe == old(self).recipe,
            final(self).recipe_id == old(self).recipe_id,
            (final(self).phase, r) == next_ingredient(ref_ids(old(self).recipe), old(self).recipe_id, i as int),
            final(self).wf(),
    {
        if i >= self.recipe.ingredients.len() {
            self.phase = WritePhase::Committing;
            WriteStep::Run(StoreCommand::Commit)
        } else {
            match self.recipe.ingredients[i].ingredient_id {
                Some(x) => {
                    self.phase = WritePhase::Linking(i);
                    WriteStep::Run(StoreCommand::InsertLink { recipe_id: self.recipe_id, ingredient_id: x, position: i })
                },
                None => {
                    self.phase = WritePhase::Finding(i);
                    WriteStep::Run(StoreCommand::FindIngredient(i))
                },
            }
        }
    }

    fn roll_back(&mut self) -> (r: WriteStep)
        ensures
            final(self).recipe == old(self).recipe,
            final(self).recipe_id == old(self).recipe_id,
            (final(self).phase, r) == roll_back(),
    {
        self.phase = WritePhase::RollingBack;
        WriteStep::Run(StoreCommand::Rollback)
    }

    /// Reads the store's reply to the last command and names what follows.
    pub fn step(&mut self, reply: StoreReply) -> (r: WriteStep)
        requires
            old(self).wf(),
        ensures
            final(self).wf(),
            final(self).recipe == old(self).recipe,
            final(self).recipe_id == writer_next_id(old(self).phase, old(self).recipe_id, reply),
            (final(self).phase, r) == writer_next(ref_ids(old(self).recipe), old(self).phase, old(self).recipe_id, reply),
    {
        match self.phase {
            WritePhase::Beginning => {
                if reply == StoreReply::Done {
                    self.phase = WritePhase::InsertingRecipe;
                    WriteStep::Run(StoreCommand::InsertRecipe)
                } else {
                    self.phase = WritePhase::Aborted;
                    WriteStep::Aborted
                }
            },
            WritePhase::InsertingRecipe => match reply {
                StoreReply::Inserted(id) => {
                    self.recipe_id = id;
                    self.go_to_ingredient(0)
                },
                _ => self.roll_back(),
            },
            WritePhase::Finding(i) => match reply {
                StoreReply::Found(Some(x)) => {
                    self.phase = WritePhase::Linking(i);
                    WriteStep::Run(StoreCommand::InsertLink { recipe_id: self.recipe_id, ingredient_id: x, position: i })
                },
                StoreReply::Found(None) => {
                    self.phase = WritePhase::Creating(i);
                    WriteStep::Run(StoreCommand::CreateIngredient(i))
                },
                _ => self.roll_back(),
            },
            WritePhase::Creating(i) => match reply {
                StoreReply::Inserted(x) => {
                    self.phase = WritePhase::Linking(i);
                    WriteStep::Run(StoreCommand::InsertLink { recipe_id: self.recipe_id, ingredient_id: x, position: i })
                },
                _ => self.roll_back(),
            },
            WritePhase::Linking(i) => {
                let n = self.recipe.ingredients.len();
                assert(i < n);
                if reply == StoreReply::Done {
                    self.go_to_ingredient(i + 1)
                } else {
                    self.roll_back()
                }
            },
            WritePhase::Committing => {
                if reply == StoreReply::Done {
                    self.phase = WritePhase::Committed(self.recipe_id);
                    WriteStep::Committed(self.recipe_id)
                } else {
                    self.phase = WritePhase::Aborted;
                    WriteStep::Aborted
                }
            },
            WritePhase::RollingBack => {
                self.phase = WritePhase::Aborted;
                WriteStep::Aborted
            },
            WritePhase::Committed(x) => WriteStep::Committed(x),
            WritePhase::Aborted => WriteStep::Aborted,
        }
    }
}

} // verus!
