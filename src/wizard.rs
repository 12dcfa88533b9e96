//! The entry wizard: the active step and the draft, driven one key at a time.
use crate::draft::{AppAction, RecipeContext, has_key, unique_keys};
use crate::states::{Key, RecipeName, RecipeState, duplicate_message, wizard_step};
use vstd::prelude::*;

verus! {

/// The ingredient name that the active step holds but the draft does not have
/// yet.
pub open spec fn pending_name(st: RecipeState) -> Option<Seq<char>> {
    match st {
        RecipeState::ConfirmIngredient(c) => Some(c.ingredient@),
        RecipeState::IngredientQuantity(q) => Some(q.ingredient@),
        RecipeState::IngredientNotes(n) => Some(n.ingredient@),
        _ => None,
    }
}

/// The entry wizard.
pub struct RecipeApp {
    pub state: RecipeState,
    pub context: RecipeContext,
}

impl RecipeApp {
    /// No ingredient name appears twice in the draft, and the name that the
    /// active step carries is not in it yet.
    pub open spec fn wf(&self) -> bool {
        &&& unique_keys(self.context.entries())
        &&& match pending_name(self.state) {
            Some(n) => !has_key(self.context.entries(), n),
            None => true,
        }
    }

    /// A wizard at the name step over an empty draft.
    pub fn new(possible_ingredients: Vec<(String, i64)>) -> (r: Self)
        ensures
            r.wf(),
            r.state matches RecipeState::RecipeName(s) && s.current_input@.len() == 0,
            r.context.name@.len() == 0,
            r.context.entries().len() == 0,
            r.context.possible_ingredients == possible_ingredients,
            r.context.instructions@.len() == 0,
            !r.context.finished,
    {
        RecipeApp {
            state: RecipeState::RecipeName(RecipeName::new()),
            context: RecipeContext::new(possible_ingredients),
        }
    }

    /// Handles one key. Escape cancels from any step and changes nothing;
    /// any other key goes to the active step, and the wizard asks to save once
    /// the draft is finished.
    pub fn handle_key(&mut self, key: Key) -> (r: AppAction)
        requires
            old(self).wf(),
        ensures
            final(self).wf(),
            key is Esc ==> r == AppAction::CancelAndExit && *final(self) == *old(self),
            !(key is Esc) ==> wizard_step(old(self).state, old(self).context, key, final(self).state, final(self).context),
            !(key is Esc) ==> r == (if final(self).context.finished {
                AppAction::SaveAndExit
            } else {
                AppAction::Continue
            }),
    {
        if key == Key::Esc {
            return AppAction::CancelAndExit;
        }
        let ghost entries = self.context.entries();
        let mut st = RecipeState::RecipeName(RecipeName::new());
        std::mem::swap(&mut st, &mut self.state);
        let ghost before = st;
        let next = st.handle_key(key, &mut self.context);
        self.state = next;
        proof {
            if before is IngredientNotes && key is Enter {
                let e = self.context.entries().last();
                assert(!has_key(entries, e.0));
                assert(self.context.entries() == entries.push(e));
                assert forall|i: int, j: int|
                    0 <= i < self.context.entries().len() && 0 <= j < self.context.entries().len()
                        && i != j implies #[trigger] self.context.entries()[i].0
                    != #[trigger] self.context.entries()[j].0 by {
                    if i < entries.len() && j < entries.len() {
                    } else if i == entries.len() {
                        assert(entries[j].0 != e.0);
                    } else {
                        assert(entries[i].0 != e.0);
                    }
                }
            }
        }
        if self.context.finished {
            AppAction::SaveAndExit
        } else {
            AppAction::Continue
        }
    }

    /// Gives up the wizard and returns its draft.
    pub fn into_context(self) -> (r: RecipeContext)
        ensures
            r == self.context,
    {
        self.context
    }
}

/// Entering, at the ingredient-name step, a non-empty name that the draft
/// already holds leaves the draft as it was and shows the duplicate-name message.
pub proof fn lemma_duplicate_name_refused(st: RecipeState, ctx: RecipeContext, next: RecipeState, ctx2: RecipeContext)
    requires
        st matches RecipeState::IngredientList(l) && l.current_input@.len() > 0 && has_key(ctx.entries(), l.current_input@),
        wizard_step(st, ctx, Key::Enter, next, ctx2),
    ensures
        ctx2.entries() == ctx.entries(),
        ctx2 == ctx,
        next matches RecipeState::IngredientList(l2) && l2.current_input@.len() == 0 && (l2.error_message matches Some(m) && m@ == duplicate_message(st->IngredientList_0.current_input@)),
{
}

} // verus!
