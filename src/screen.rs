//! What each wizard step shows: titled blocks of text, computed from the step
//! and the draft. Painting them on a terminal is left to the caller.
use crate::draft::{EntryView, RecipeContext};
use crate::states::{
    ConfirmIngredient, IngredientList, IngredientNotes, IngredientQuantity, Instructions,
    RecipeName, RecipeState,
};
use crate::text::{decimal, push_decimal, push_text};
use crate::wizard::RecipeApp;
use vstd::prelude::*;
use vstd::string::StringExecFns;

verus! {

/// One ingredient of the draft as listed: its quantity and name, and the notes
/// in parentheses, which are set apart when painted.
pub struct IngredientLine {
    pub text: String,
    pub notes: Option<String>,
}

/// The content of the screen for one step.
pub enum Screen {
    /// One titled block of text.
    Single { title: String, body: String },
    /// The draft's ingredients above an input block.
    IngredientEntry {
        list_title: String,
        lines: Vec<IngredientLine>,
        input_title: String,
        input: String,
    },
    /// The draft's ingredients, then its numbered steps, then an input block.
    InstructionEntry {
        list_title: String,
        lines: Vec<IngredientLine>,
        steps: String,
        input_title: String,
        input: String,
    },
}

/// The listed text of an ingredient: its quantity before its name, or the name
/// alone when there is no quantity.
pub open spec fn line_text(name: Seq<char>, quantity: Seq<char>) -> Seq<char> {
    if quantity.len() == 0 {
        name
    } else {
        quantity + " "@ + name
    }
}

/// The listed notes of an ingredient, in parentheses, when there are any.
pub open spec fn line_notes(notes: Seq<char>) -> Option<Seq<char>> {
    if notes.len() == 0 {
        None
    } else {
        Some("("@ + notes + ")"@)
    }
}

/// The view of an optional string.
pub open spec fn opt_view(o: Option<String>) -> Option<Seq<char>> {
    match o {
        Some(s) => Some(s@),
        None => None,
    }
}

/// `lines` lists `entries`, one line each, in order.
pub open spec fn lists_entries(lines: Seq<IngredientLine>, entries: Seq<EntryView>) -> bool {
    &&& lines.len() == entries.len()
    &&& forall|i: int|
        0 <= i < lines.len() ==> (#[trigger] lines[i]).text@ == line_text(entries[i].0, entries[i].2)
            && opt_view(lines[i].notes) == line_notes(entries[i].3)
}

/// The instruction steps, numbered from one, one per line.
pub open spec fn numbered_steps(steps: Seq<Seq<char>>) -> Seq<char>
    decreases steps.len(),
{
    if steps.len() == 0 {
        Seq::empty()
    } else if steps.len() == 1 {
        "1"@ + ". "@ + steps[0]
    } else {
        numbered_steps(steps.drop_last()) + "\n"@ + decimal(steps.len()) + ". "@ + steps.last()
    }
}

/// The title over the draft's ingredients.
pub open spec fn list_title(name: Seq<char>) -> Seq<char> {
    "Ingredients for "@ + name
}

/// The title of the ingredient-name input.
pub open spec fn ingredient_input_title(name: Seq<char>, error: Option<Seq<char>>) -> Seq<char> {
    match error {
        Some(e) => "Enter ingredients for "@ + name + " - ERROR: "@ + e,
        None => "Enter ingredients "@ + name + " (Enter on empty to continue)"@,
    }
}

/// The title of the instruction input, with the number of the next step.
pub open spec fn step_input_title(count: nat) -> Seq<char> {
    "Enter step "@ + decimal(count + 1) + " (Enter on empty to finish)"@
}

/// `screen` is what the step `st` shows over the draft `ctx`.
pub open spec fn shows(st: RecipeState, ctx: RecipeContext, screen: Screen) -> bool {
    match st {
        RecipeState::RecipeName(s) => screen matches Screen::Single { title, body } && title@
            == "Recipe Name (Enter to Continue)"@ && body@ == s.current_input@,
        RecipeState::IngredientList(s) => screen matches Screen::IngredientEntry {
            list_title: lt,
            lines,
            input_title,
            input,
        } && lt@ == list_title(ctx.name@) && lists_entries(lines@, ctx.entries()) && input_title@
            == ingredient_input_title(ctx.name@, opt_view(s.error_message)) && input@
            == s.current_input@,
        RecipeState::ConfirmIngredient(s) => screen matches Screen::Single { title, body } && title@
            == "Confirm New Ingredient"@ && body@ == "Add new ingredient '"@ + s.ingredient@
            + "'?\n\n(Y)es / (N)"@,
        RecipeState::IngredientQuantity(s) => screen matches Screen::Single { title, body } && title@
            == "Quantity for "@ + s.ingredient@ && body@ == s.current_input@,
        RecipeState::IngredientNotes(s) => screen matches Screen::Single { title, body } && title@
            == "Notes for "@ + s.ingredient@ + " (Enter to skip)"@ && body@ == s.current_input@,
        RecipeState::Instructions(s) => screen matches Screen::InstructionEntry {
            list_title: lt,
            lines,
            steps,
            input_title,
            input,
        } && lt@ == list_title(ctx.name@) && lists_entries(lines@, ctx.entries()) && steps@
            == numbered_steps(ctx.instructions@.map_values(|x: String| x@)) && input_title@
            == step_input_title(ctx.instructions@.len()) && input@ == s.current_input@,
    }
}

/// The listed line of one ingredient.
fn ingredient_line(name: &String, quantity: &String, notes: &String) -> (r: IngredientLine)
    ensures
        r.text@ == line_text(name@, quantity@),
        opt_view(r.notes) == line_notes(notes@),
{
    let text = if quantity.as_str().is_empty() {
        name.clone()
    } else {
        let mut t = quantity.clone();
        push_text(&mut t, " ");
        t.append(name.as_str());
        t
    };
    let notes = if notes.as_str().is_empty() {
        None
    } else {
        let mut n = String::from_str("(");
        n.append(notes.as_str());
        push_text(&mut n, ")");
        Some(n)
    };
    IngredientLine { text, notes }
}

/// The lines that list the draft's ingredients.
pub fn ingredient_lines(context: &RecipeContext) -> (r: Vec<IngredientLine>)
    ensures
        lists_entries(r@, context.entries()),
{
    let n = context.ingredient_count();
    let mut lines: Vec<IngredientLine> = Vec::new();
    let mut i: usize = 0;
    while i < n
        invariant
            n == context.entries().len(),
            i <= n,
            lines@.len() == i,
            forall|k: int|
                0 <= k < i ==> (#[trigger] lines@[k]).text@ == line_text(
                    context.entries()[k].0,
                    context.entries()[k].2,
                ) && opt_view(lines@[k].notes) == line_notes(context.entries()[k].3),
        decreases n - i,
    {
        let (name, info) = context.ingredient_at(i);
        lines.push(ingredient_line(name, &info.quantity_unit, &info.notes));
        i = i + 1;
    }
    lines
}

/// The draft's instruction steps, numbered from one, one per line.
pub fn numbered_instructions(steps: &Vec<String>) -> (r: String)
    ensures
        r@ == numbered_steps(steps@.map_values(|x: String| x@)),
{
    let ghost views = steps@.map_values(|x: String| x@);
    let mut out = String::new();
    let mut i: usize = 0;
    while i < steps.len()
        invariant
            i <= steps@.len(),
            views == steps@.map_values(|x: String| x@),
            out@ == numbered_steps(views.take(i as int)),
        decreases steps.len() - i,
    {
        if i > 0 {
            push_text(&mut out, "\n");
        }
        push_decimal(&mut out, i as u128 + 1);
        push_text(&mut out, ". ");
        out.append(steps[i].as_str());
        proof {
            let t = views.take(i + 1);
            assert(t.drop_last() =~= views.take(i as int));
            assert(t.last() == steps@[i as int]@);
            if i == 0 {
                assert(decimal(1) =~= "1"@) by {
                    reveal_strlit("1");
                }
            }
        }
        i = i + 1;
    }
    assert(views.take(steps@.len() as int) =~= views);
    out
}

impl RecipeName {
    /// The name prompt.
    pub fn render(&self, _context: &RecipeContext) -> (r: Screen)
        ensures
            shows(RecipeState::RecipeName(*self), *_context, r),
    {
        Screen::Single {
            title: String::from_str("Recipe Name (Enter to Continue)"),
            body: self.current_input.clone(),
        }
    }
}

impl IngredientList {
    /// The draft's ingredients above the ingredient-name prompt, whose title
    /// carries the duplicate-name message while there is one.
    pub fn render(&self, context: &RecipeContext) -> (r: Screen)
        ensures
            shows(RecipeState::IngredientList(*self), *context, r),
    {
        let mut lt = String::from_str("Ingredients for ");
        lt.append(context.name.as_str());
        let lines = ingredient_lines(context);
        let input_title = match &self.error_message {
            Some(error) => {
                let mut t = String::from_str("Enter ingredients for ");
                t.append(context.name.as_str());
                push_text(&mut t, " - ERROR: ");
                t.append(error.as_str());
                t
            },
            None => {
                let mut t = String::from_str("Enter ingredients ");
                t.append(context.name.as_str());
                push_text(&mut t, " (Enter on empty to continue)");
                t
            },
        };
        Screen::IngredientEntry {
            list_title: lt,
            lines,
            input_title,
            input: self.current_input.clone(),
        }
    }
}

impl ConfirmIngredient {
    /// The question whether to create the ingredient.
    pub fn render(&self, _context: &RecipeContext) -> (r: Screen)
        ensures
            shows(RecipeState::ConfirmIngredient(*self), *_context, r),
    {
        let mut body = String::from_str("Add new ingredient '");
        body.append(self.ingredient.as_str());
        push_text(&mut body, "'?\n\n(Y)es / (N)");
        Screen::Single { title: String::from_str("Confirm New Ingredient"), body }
    }
}

impl IngredientQuantity {
    /// The quantity prompt.
    pub fn render(&self, _context: &RecipeContext) -> (r: Screen)
        ensures
            shows(RecipeState::IngredientQuantity(*self), *_context, r),
    {
        let mut title = String::from_str("Quantity for ");
        title.append(self.ingredient.as_str());
        Screen::Single { title, body: self.current_input.clone() }
    }
}

impl IngredientNotes {
    /// The notes prompt.
    pub fn render(&self, _context: &RecipeContext) -> (r: Screen)
        ensures
            shows(RecipeState::IngredientNotes(*self), *_context, r),
    {
        let mut title = String::from_str("Notes for ");
        title.append(self.ingredient.as_str());
        push_text(&mut title, " (Enter to skip)");
        Screen::Single { title, body: self.current_input.clone() }
    }
}

impl Instructions {
    /// The draft's ingredients, its numbered steps, and the prompt for the
    /// next step.
    pub fn render(&self, context: &RecipeContext) -> (r: Screen)
        ensures
            shows(RecipeState::Instructions(*self), *context, r),
    {
        let mut lt = String::from_str("Ingredients for ");
        lt.append(context.name.as_str());
        let lines = ingredient_lines(context);
        let steps = numbered_instructions(&context.instructions);
        let mut input_title = String::from_str("Enter step ");
        push_decimal(&mut input_title, context.instructions.len() as u128 + 1);
        push_text(&mut input_title, " (Enter on empty to finish)");
        Screen::InstructionEntry {
            list_title: lt,
            lines,
            steps,
            input_title,
            input: self.current_input.clone(),
        }
    }
}

impl RecipeState {
    /// What the active step shows over the draft.
    pub fn render(&self, context: &RecipeContext) -> (r: Screen)
        ensures
            shows(*self, *context, r),
    {
        match self {
            RecipeState::RecipeName(s) => s.render(context),
            RecipeState::IngredientList(s) => s.render(context),
            RecipeState::ConfirmIngredient(s) => s.render(context),
            RecipeState::IngredientQuantity(s) => s.render(context),
            RecipeState::IngredientNotes(s) => s.render(context),
            RecipeState::Instructions(s) => s.render(context),
        }
    }
}

impl RecipeApp {
    /// What the wizard shows now.
    pub fn render(&self) -> (r: Screen)
        ensures
            shows(self.state, self.context, r),
    {
        self.state.render(&self.context)
    }
}

} // verus!
