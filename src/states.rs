//! The steps of the entry wizard. Each step owns its own input text, reads and
//! writes the draft, and names the step that follows a key.
use crate::draft::{
    EntryView, IngredientInfo, IngredientStatus, RecipeContext, entry_view, has_key, inserted,
    known_id,
};
use crate::text::{pop_char, push_char, push_text};
use vstd::prelude::*;
use vstd::string::StringExecFns;

verus! {

/// A key press, as far as the wizard tells keys apart.
#[derive(Debug, Clone, Copy, PartialEq, Eq, Structural)]
pub enum Key {
    /// A printable character.
    Char(char),
    Backspace,
    /// Submits the current input.
    Enter,
    /// Cancels entry from any step.
    Esc,
    /// Any other key; no step reacts to it.
    Other,
}

/// The input after an editing key: a character is appended, backspace removes
/// the last character, and other keys leave it as it is.
pub open spec fn edited(input: Seq<char>, key: Key) -> Seq<char> {
    match key {
        Key::Char(c) => input.push(c),
        Key::Backspace => if input.len() > 0 {
            input.drop_last()
        } else {
            input
        },
        _ => input,
    }
}

/// Whether the key edits the input text of a step.
pub open spec fn is_edit(key: Key) -> bool {
    key is Char || key is Backspace
}

/// The message shown when an ingredient is entered twice.
pub open spec fn duplicate_message(name: Seq<char>) -> Seq<char> {
    "'"@ + name + "' already added"@
}

/// Applies an editing key to an input text.
fn edit_input(input: &mut String, key: Key)
    requires
        is_edit(key),
    ensures
        final(input)@ == edited(old(input)@, key),
{
    match key {
        Key::Char(c) => push_char(input, c),
        _ => {
            pop_char(input);
        },
    }
}

/// Entry of the recipe's name.
pub struct RecipeName {
    pub current_input: String,
}

/// Entry of ingredient names, one at a time.
pub struct IngredientList {
    pub current_input: String,
    /// Shown until the next key, after a name was entered twice.
    pub error_message: Option<String>,
}

/// Confirmation that an ingredient unknown to the catalog is to be created.
pub struct ConfirmIngredient {
    pub ingredient: String,
}

/// Entry of the quantity of an ingredient.
pub struct IngredientQuantity {
    pub current_input: String,
    pub ingredient: String,
    pub status: IngredientStatus,
}

/// Entry of the notes on an ingredient.
pub struct IngredientNotes {
    pub current_input: String,
    pub ingredient: String,
    pub status: IngredientStatus,
    pub quantity_unit: String,
}

/// Entry of instruction steps, one at a time.
pub struct Instructions {
    pub current_input: String,
}

/// The active step of the wizard.
pub enum RecipeState {
    RecipeName(RecipeName),
    IngredientList(IngredientList),
    ConfirmIngredient(ConfirmIngredient),
    IngredientQuantity(IngredientQuantity),
    IngredientNotes(IngredientNotes),
    Instructions(Instructions),
}

/// The draft is the same apart from its name.
pub open spec fn same_but_name(a: RecipeContext, b: RecipeContext) -> bool {
    &&& b.ingredients == a.ingredients
    &&& b.possible_ingredients == a.possible_ingredients
    &&& b.instructions == a.instructions
    &&& b.finished == a.finished
}

/// The draft is the same apart from its ingredients.
pub open spec fn same_but_ingredients(a: RecipeContext, b: RecipeContext) -> bool {
    &&& b.name == a.name
    &&& b.possible_ingredients == a.possible_ingredients
    &&& b.instructions == a.instructions
    &&& b.finished == a.finished
}

/// The draft is the same apart from its instructions and its finished flag.
pub open spec fn same_but_instructions(a: RecipeContext, b: RecipeContext) -> bool {
    &&& b.name == a.name
    &&& b.ingredients == a.ingredients
    &&& b.possible_ingredients == a.possible_ingredients
}

/// A fresh ingredient-name step: no input and no message.
pub open spec fn is_fresh_list(s: RecipeState) -> bool {
    s matches RecipeState::IngredientList(l) && l.current_input@.len() == 0
        && l.error_message is None
}

/// A fresh instruction step.
pub open spec fn is_fresh_instructions(s: RecipeState) -> bool {
    s matches RecipeState::Instructions(l) && l.current_input@.len() == 0
}

/// A fresh quantity step for the ingredient `name` of status `status`.
pub open spec fn is_fresh_quantity(s: RecipeState, name: Seq<char>, status: IngredientStatus) -> bool {
    s matches RecipeState::IngredientQuantity(q) && q.ingredient@ == name && q.status == status
        && q.current_input@.len() == 0
}

/// The name step: `next` and `ctx2` follow `st` and `ctx` on `key`.
pub open spec fn name_step(st: RecipeName, ctx: RecipeContext, key: Key, next: RecipeState, ctx2: RecipeContext) -> bool {
    if key is Enter {
        &&& is_fresh_list(next)
        &&& ctx2.name@ == st.current_input@
        &&& same_but_name(ctx, ctx2)
    } else {
        &&& next matches RecipeState::RecipeName(s) && s.current_input@ == edited(st.current_input@, key)
        &&& ctx2 == ctx
    }
}

/// The ingredient-name step: `next` and `ctx2` follow `st` and `ctx` on `key`.
pub open spec fn list_step(st: IngredientList, ctx: RecipeContext, key: Key, next: RecipeState, ctx2: RecipeContext) -> bool {
    let n = st.current_input@;
    &&& ctx2 == ctx
    &&& if is_edit(key) {
        next matches RecipeState::IngredientList(s) && s.current_input@ == edited(n, key)
            && s.error_message is None
    } else if key is Enter {
        if n.len() == 0 {
            is_fresh_instructions(next)
        } else if has_key(ctx.entries(), n) {
            next matches RecipeState::IngredientList(s) && s.current_input@.len() == 0
                && (s.error_message matches Some(m) && m@ == duplicate_message(n))
        } else if known_id(ctx.possible_ingredients@, n) is Some {
            is_fresh_quantity(
                next,
                n,
                IngredientStatus::Existing(known_id(ctx.possible_ingredients@, n)->0),
            )
        } else {
            next matches RecipeState::ConfirmIngredient(c) && c.ingredient@ == n
        }
    } else {
        next == RecipeState::IngredientList(st)
    }
}

/// Whether the key answers yes to a confirmation.
pub open spec fn is_yes(key: Key) -> bool {
    key == Key::Char('y') || key == Key::Char('Y')
}

/// Whether the key answers no to a confirmation.
pub open spec fn is_no(key: Key) -> bool {
    key == Key::Char('n') || key == Key::Char('N')
}

/// The confirmation step: `next` and `ctx2` follow `st` and `ctx` on `key`.
pub open spec fn confirm_step(st: ConfirmIngredient, ctx: RecipeContext, key: Key, next: RecipeState, ctx2: RecipeContext) -> bool {
    &&& ctx2 == ctx
    &&& if is_yes(key) {
        is_fresh_quantity(next, st.ingredient@, IngredientStatus::New)
    } else if is_no(key) {
        is_fresh_list(next)
    } else {
        next == RecipeState::ConfirmIngredient(st)
    }
}

/// The quantity step: `next` and `ctx2` follow `st` and `ctx` on `key`.
pub open spec fn quantity_step(st: IngredientQuantity, ctx: RecipeContext, key: Key, next: RecipeState, ctx2: RecipeContext) -> bool {
    &&& ctx2 == ctx
    &&& if key is Enter {
        next matches RecipeState::IngredientNotes(s) && s.ingredient@ == st.ingredient@
            && s.status == st.status && s.quantity_unit@ == st.current_input@
            && s.current_input@.len() == 0
    } else {
        next matches RecipeState::IngredientQuantity(s) && s.ingredient@ == st.ingredient@
            && s.status == st.status && s.current_input@ == edited(st.current_input@, key)
    }
}

/// The entry that the notes step adds to the draft.
pub open spec fn notes_entry(st: IngredientNotes) -> EntryView {
    (st.ingredient@, st.status, st.quantity_unit@, st.current_input@)
}

/// The notes step: `next` and `ctx2` follow `st` and `ctx` on `key`.
pub open spec fn notes_step(st: IngredientNotes, ctx: RecipeContext, key: Key, next: RecipeState, ctx2: RecipeContext) -> bool {
    if key is Enter {
        &&& is_fresh_list(next)
        &&& ctx2.entries() == inserted(ctx.entries(), notes_entry(st))
        &&& same_but_ingredients(ctx, ctx2)
    } else {
        &&& ctx2 == ctx
        &&& next matches RecipeState::IngredientNotes(s) && s.ingredient@ == st.ingredient@
            && s.status == st.status && s.quantity_unit@ == st.quantity_unit@
            && s.current_input@ == edited(st.current_input@, key)
    }
}

/// The instruction step: `next` and `ctx2` follow `st` and `ctx` on `key`.
pub open spec fn instructions_step(st: Instructions, ctx: RecipeContext, key: Key, next: RecipeState, ctx2: RecipeContext) -> bool {
    &&& same_but_instructions(ctx, ctx2)
    &&& if key is Enter && st.current_input@.len() == 0 {
        &&& ctx2.finished
        &&& ctx2.instructions == ctx.instructions
        &&& next == RecipeState::Instructions(st)
    } else if key is Enter {
        &&& ctx2.instructions@.map_values(|s: String| s@) == ctx.instructions@.map_values(
            |s: String| s@,
        ).push(st.current_input@)
        &&& ctx2.finished == ctx.finished
        &&& is_fresh_instructions(next)
    } else {
        &&& ctx2 == ctx
        &&& next matches RecipeState::Instructions(s) && s.current_input@ == edited(
            st.current_input@,
            key,
        )
    }
}

/// One key handled by the active step: the wizard moves from `st` over the
/// draft `ctx` to `next` over `ctx2`.
pub open spec fn wizard_step(st: RecipeState, ctx: RecipeContext, key: Key, next: RecipeState, ctx2: RecipeContext) -> bool {
    match st {
        RecipeState::RecipeName(s) => name_step(s, ctx, key, next, ctx2),
        RecipeState::IngredientList(s) => list_step(s, ctx, key, next, ctx2),
        RecipeState::ConfirmIngredient(s) => confirm_step(s, ctx, key, next, ctx2),
        RecipeState::IngredientQuantity(s) => quantity_step(s, ctx, key, next, ctx2),
        RecipeState::IngredientNotes(s) => notes_step(s, ctx, key, next, ctx2),
        RecipeState::Instructions(s) => instructions_step(s, ctx, key, next, ctx2),
    }
}

impl RecipeName {
    pub fn new() -> (r: Self)
        ensures
            r.current_input@.len() == 0,
    {
        RecipeName { current_input: String::new() }
    }

    /// Handles a key: characters and backspace edit the name, and enter stores
    /// it in the draft and moves on to the ingredients.
    pub fn handle_key(self, key: Key, context: &mut RecipeContext) -> (next: RecipeState)
        ensures
            name_step(self, *old(context), key, next, *final(context)),
    {
        let mut st = self;
        if is_edit_key(key) {
            edit_input(&mut st.current_input, key);
            RecipeState::RecipeName(st)
        } else if key == Key::Enter {
            context.name = st.current_input;
            RecipeState::IngredientList(IngredientList::new())
        } else {
            RecipeState::RecipeName(st)
        }
    }
}

/// Whether the key edits the input text of a step.
fn is_edit_key(key: Key) -> (r: bool)
    ensures
        r == is_edit(key),
{
    match key {
        Key::Char(_) | Key::Backspace => true,
        _ => false,
    }
}

impl IngredientList {
    pub fn new() -> (r: Self)
        ensures
            r.current_input@.len() == 0,
            r.error_message is None,
    {
        IngredientList { current_input: String::new(), error_message: None }
    }

    /// Handles a key. Enter on an empty name ends ingredient entry; a name
    /// already in the draft is refused with a message; a name the catalog
    /// knows goes on to its quantity; another name asks for confirmation.
    pub fn handle_key(self, key: Key, context: &RecipeContext) -> (next: RecipeState)
        ensures
            list_step(self, *context, key, next, *context),
    {
        let mut st = self;
        if is_edit_key(key) {
            edit_input(&mut st.current_input, key);
            st.error_message = None;
            RecipeState::IngredientList(st)
        } else if key == Key::Enter {
            if st.current_input.as_str().is_empty() {
                RecipeState::Instructions(Instructions::new())
            } else if context.has_ingredient(&st.current_input) {
                let mut message = String::from_str("'");
                message.append(st.current_input.as_str());
                push_text(&mut message, "' already added");
                RecipeState::IngredientList(
                    IngredientList { current_input: String::new(), error_message: Some(message) },
                )
            } else {
                match context.known_ingredient_id(&st.current_input) {
                    Some(id) => RecipeState::IngredientQuantity(
                        IngredientQuantity::new(st.current_input, IngredientStatus::Existing(id)),
                    ),
                    None => RecipeState::ConfirmIngredient(ConfirmIngredient::new(st.current_input)),
                }
            }
        } else {
            RecipeState::IngredientList(st)
        }
    }
}

impl ConfirmIngredient {
    pub fn new(ingredient: String) -> (r: Self)
        ensures
            r.ingredient == ingredient,
    {
        ConfirmIngredient { ingredient }
    }

    /// Handles a key: yes goes on to the quantity of a new ingredient, no
    /// drops the name and returns to ingredient entry; other keys do nothing.
    pub fn handle_key(self, key: Key, context: &RecipeContext) -> (next: RecipeState)
        ensures
            confirm_step(self, *context, key, next, *context),
    {
        if key == Key::Char('y') || key == Key::Char('Y') {
            RecipeState::IngredientQuantity(IngredientQuantity::new(self.ingredient, IngredientStatus::New))
        } else if key == Key::Char('n') || key == Key::Char('N') {
            RecipeState::IngredientList(IngredientList::new())
        } else {
            RecipeState::ConfirmIngredient(self)
        }
    }
}

impl IngredientQuantity {
    pub fn new(ingredient: String, status: IngredientStatus) -> (r: Self)
        ensures
            r.ingredient == ingredient,
            r.status == status,
            r.current_input@.len() == 0,
    {
        IngredientQuantity { ingredient, current_input: String::new(), status }
    }

    /// Handles a key: characters and backspace edit the quantity, and enter
    /// goes on to the notes.
    pub fn handle_key(self, key: Key, context: &RecipeContext) -> (next: RecipeState)
        ensures
            quantity_step(self, *context, key, next, *context),
    {
        let mut st = self;
        if is_edit_key(key) {
            edit_input(&mut st.current_input, key);
            RecipeState::IngredientQuantity(st)
        } else if key == Key::Enter {
            RecipeState::IngredientNotes(IngredientNotes::new(st.ingredient, st.status, st.current_input))
        } else {
            RecipeState::IngredientQuantity(st)
        }
    }
}

impl IngredientNotes {
    pub fn new(ingredient: String, status: IngredientStatus, quantity_unit: String) -> (r: Self)
        ensures
            r.ingredient == ingredient,
            r.status == status,
            r.quantity_unit == quantity_unit,
            r.current_input@.len() == 0,
    {
        IngredientNotes { ingredient, current_input: String::new(), status, quantity_unit }
    }

    /// Handles a key: characters and backspace edit the notes, and enter adds
    /// the ingredient to the draft and returns to ingredient entry.
    pub fn handle_key(self, key: Key, context: &mut RecipeContext) -> (next: RecipeState)
        ensures
            notes_step(self, *old(context), key, next, *final(context)),
    {
        let mut st = self;
        if is_edit_key(key) {
            edit_input(&mut st.current_input, key);
            RecipeState::IngredientNotes(st)
        } else if key == Key::Enter {
            let ghost e = notes_entry(st);
            let info = IngredientInfo {
                status: st.status,
                quantity_unit: st.quantity_unit,
                notes: st.current_input,
            };
            assert(entry_view(st.ingredient@, info) == e);
            context.add_ingredient(st.ingredient, info);
            RecipeState::IngredientList(IngredientList::new())
        } else {
            RecipeState::IngredientNotes(st)
        }
    }
}

impl Instructions {
    pub fn new() -> (r: Self)
        ensures
            r.current_input@.len() == 0,
    {
        Instructions { current_input: String::new() }
    }

    /// Handles a key: characters and backspace edit the step; enter adds a
    /// non-empty step to the draft, and on an empty step marks the draft
    /// finished.
    pub fn handle_key(self, key: Key, context: &mut RecipeContext) -> (next: RecipeState)
        ensures
            instructions_step(self, *old(context), key, next, *final(context)),
    {
        let mut st = self;
        if is_edit_key(key) {
            edit_input(&mut st.current_input, key);
            RecipeState::Instructions(st)
        } else if key == Key::Enter {
            if st.current_input.as_str().is_empty() {
                context.finished = true;
                RecipeState::Instructions(st)
            } else {
                let ghost before = context.instructions@;
                context.instructions.push(st.current_input);
                assert(context.instructions@.map_values(|s: String| s@) =~= before.map_values(
                    |s: String| s@,
                ).push(st.current_input@));
                RecipeState::Instructions(Instructions::new())
            }
        } else {
            RecipeState::Instructions(st)
        }
    }
}

impl RecipeState {
    /// Hands a key to the active step and returns the step that follows.
    pub fn handle_key(self, key: Key, context: &mut RecipeContext) -> (next: RecipeState)
        ensures
            wizard_step(self, *old(context), key, next, *final(context)),
    {
        match self {
            RecipeState::RecipeName(s) => s.handle_key(key, context),
            RecipeState::IngredientList(s) => s.handle_key(key, context),
            RecipeState::ConfirmIngredient(s) => s.handle_key(key, context),
            RecipeState::IngredientQuantity(s) => s.handle_key(key, context),
            RecipeState::IngredientNotes(s) => s.handle_key(key, context),
            RecipeState::Instructions(s) => s.handle_key(key, context),
        }
    }
}

} // verus!
