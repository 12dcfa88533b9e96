use feedme::draft::{AppAction, IngredientStatus};
use feedme::persist::NewRecipe;
use feedme::screen::Screen;
use feedme::states::{Key, RecipeState};
use feedme::wizard::RecipeApp;

fn type_text(app: &mut RecipeApp, text: &str) {
    for c in text.chars() {
        assert_eq!(app.handle_key(Key::Char(c)), AppAction::Continue);
    }
}

fn submit(app: &mut RecipeApp) -> AppAction {
    app.handle_key(Key::Enter)
}

fn entries(app: &RecipeApp) -> Vec<(String, IngredientStatus, String, String)> {
    let ctx = &app.context;
    (0..ctx.ingredient_count())
        .map(|i| {
            let (name, info) = ctx.ingredient_at(i);
            (name.clone(), info.status, info.quantity_unit.clone(), info.notes.clone())
        })
        .collect()
}

fn known() -> Vec<(String, i64)> {
    vec![("flour".to_string(), 1), ("eggs".to_string(), 5)]
}

#[test]
fn pancakes_end_to_end() {
    let mut app = RecipeApp::new(known());
    type_text(&mut app, "Pancakes");
    submit(&mut app);
    type_text(&mut app, "flour");
    submit(&mut app);
    assert!(matches!(app.state, RecipeState::IngredientQuantity(_)));
    type_text(&mut app, "2 cups");
    submit(&mut app);
    submit(&mut app);
    type_text(&mut app, "milk");
    submit(&mut app);
    assert!(matches!(app.state, RecipeState::ConfirmIngredient(_)));
    app.handle_key(Key::Char('y'));
    type_text(&mut app, "1 cup");
    submit(&mut app);
    submit(&mut app);
    submit(&mut app);
    assert!(matches!(app.state, RecipeState::Instructions(_)));
    type_text(&mut app, "Mix");
    assert_eq!(submit(&mut app), AppAction::Continue);
    assert_eq!(submit(&mut app), AppAction::SaveAndExit);

    let ctx = app.into_context();
    assert!(ctx.finished);
    assert_eq!(ctx.name, "Pancakes");
    assert_eq!(ctx.instructions, vec!["Mix".to_string()]);
    assert_eq!(ctx.ingredient_count(), 2);
    let (n0, i0) = ctx.ingredient_at(0);
    assert_eq!(n0, "flour");
    assert_eq!(i0.status, IngredientStatus::Existing(1));
    assert_eq!(i0.quantity_unit, "2 cups");
    assert_eq!(i0.notes, "");
    let (n1, i1) = ctx.ingredient_at(1);
    assert_eq!(n1, "milk");
    assert_eq!(i1.status, IngredientStatus::New);
    assert_eq!(i1.quantity_unit, "1 cup");

    let recipe: NewRecipe = ctx.to_new_recipe();
    assert_eq!(recipe.name, "Pancakes");
    assert_eq!(recipe.instructions, Some("Mix".to_string()));
    assert_eq!(recipe.ingredients.len(), 2);
    assert_eq!(recipe.ingredients[0].ingredient_id, Some(1));
    assert_eq!(recipe.ingredients[0].notes, None);
    assert_eq!(recipe.ingredients[1].ingredient_id, None);
    assert_eq!(recipe.ingredients[1].ingredient_name, "milk");
}

#[test]
fn duplicate_ingredient_is_refused_with_message() {
    let mut app = RecipeApp::new(known());
    type_text(&mut app, "Bread");
    submit(&mut app);
    type_text(&mut app, "flour");
    submit(&mut app);
    type_text(&mut app, "3 cups");
    submit(&mut app);
    type_text(&mut app, "sifted");
    submit(&mut app);
    let before = entries(&app);
    type_text(&mut app, "flour");
    submit(&mut app);
    assert_eq!(entries(&app), before);
    match &app.state {
        RecipeState::IngredientList(l) => {
            assert_eq!(l.error_message.as_deref(), Some("'flour' already added"));
            assert_eq!(l.current_input, "");
        }
        _ => panic!("expected the ingredient step"),
    }
    match app.render() {
        Screen::IngredientEntry { input_title, lines, .. } => {
            assert_eq!(input_title, "Enter ingredients for Bread - ERROR: 'flour' already added");
            assert_eq!(lines.len(), 1);
            assert_eq!(lines[0].text, "3 cups flour");
            assert_eq!(lines[0].notes.as_deref(), Some("(sifted)"));
        }
        _ => panic!("expected the ingredient screen"),
    }
    // the next key clears the message
    app.handle_key(Key::Char('x'));
    match &app.state {
        RecipeState::IngredientList(l) => assert!(l.error_message.is_none()),
        _ => panic!("expected the ingredient step"),
    }
}

#[test]
fn declining_a_new_ingredient_discards_it() {
    let mut app = RecipeApp::new(known());
    submit(&mut app);
    type_text(&mut app, "saffron");
    submit(&mut app);
    match app.render() {
        Screen::Single { title, body } => {
            assert_eq!(title, "Confirm New Ingredient");
            assert_eq!(body, "Add new ingredient 'saffron'?\n\n(Y)es / (N)");
        }
        _ => panic!("expected the confirmation"),
    }
    app.handle_key(Key::Char('q'));
    assert!(matches!(app.state, RecipeState::ConfirmIngredient(_)));
    app.handle_key(Key::Char('N'));
    match &app.state {
        RecipeState::IngredientList(l) => assert_eq!(l.current_input, ""),
        _ => panic!("expected the ingredient step"),
    }
    assert_eq!(app.context.ingredient_count(), 0);
}

#[test]
fn escape_cancels_from_any_step() {
    let mut app = RecipeApp::new(known());
    type_text(&mut app, "Soup");
    assert_eq!(app.handle_key(Key::Esc), AppAction::CancelAndExit);
    submit(&mut app);
    type_text(&mut app, "eggs");
    submit(&mut app);
    assert_eq!(app.handle_key(Key::Esc), AppAction::CancelAndExit);
    match &app.state {
        RecipeState::IngredientQuantity(q) => {
            assert_eq!(q.ingredient, "eggs");
            assert_eq!(q.status, IngredientStatus::Existing(5));
        }
        _ => panic!("expected the quantity step"),
    }
}

#[test]
fn backspace_and_other_keys_edit_the_input() {
    let mut app = RecipeApp::new(vec![]);
    app.handle_key(Key::Backspace);
    type_text(&mut app, "Cakx");
    app.handle_key(Key::Backspace);
    app.handle_key(Key::Other);
    type_text(&mut app, "e");
    match app.render() {
        Screen::Single { title, body } => {
            assert_eq!(title, "Recipe Name (Enter to Continue)");
            assert_eq!(body, "Cake");
        }
        _ => panic!("expected the name prompt"),
    }
    submit(&mut app);
    assert_eq!(app.context.name, "Cake");
}

#[test]
fn empty_name_quantity_and_notes_are_accepted() {
    let mut app = RecipeApp::new(vec![]);
    submit(&mut app);
    type_text(&mut app, "salt");
    submit(&mut app);
    app.handle_key(Key::Char('Y'));
    match app.render() {
        Screen::Single { title, .. } => assert_eq!(title, "Quantity for salt"),
        _ => panic!("expected the quantity prompt"),
    }
    submit(&mut app);
    match app.render() {
        Screen::Single { title, .. } => assert_eq!(title, "Notes for salt (Enter to skip)"),
        _ => panic!("expected the notes prompt"),
    }
    submit(&mut app);
    submit(&mut app);
    assert_eq!(submit(&mut app), AppAction::SaveAndExit);
    let ctx = app.into_context();
    assert_eq!(ctx.name, "");
    let recipe = ctx.to_new_recipe();
    assert_eq!(recipe.instructions, None);
    assert_eq!(recipe.ingredients[0].quantity_unit, "");
    assert_eq!(recipe.ingredients[0].notes, None);
    assert_eq!(recipe.ingredients[0].ingredient_id, None);
}

#[test]
fn notes_are_kept_when_entered() {
    let mut app = RecipeApp::new(known());
    type_text(&mut app, "Omelette");
    submit(&mut app);
    type_text(&mut app, "eggs");
    submit(&mut app);
    type_text(&mut app, "3");
    submit(&mut app);
    type_text(&mut app, "beaten");
    submit(&mut app);
    submit(&mut app);
    type_text(&mut app, "Whisk");
    submit(&mut app);
    type_text(&mut app, "Fry");
    submit(&mut app);
    match app.render() {
        Screen::InstructionEntry { list_title, lines, steps, input_title, input } => {
            assert_eq!(list_title, "Ingredients for Omelette");
            assert_eq!(lines[0].text, "3 eggs");
            assert_eq!(lines[0].notes.as_deref(), Some("(beaten)"));
            assert_eq!(steps, "1. Whisk\n2. Fry");
            assert_eq!(input_title, "Enter step 3 (Enter on empty to finish)");
            assert_eq!(input, "");
        }
        _ => panic!("expected the instruction screen"),
    }
    submit(&mut app);
    let recipe = app.into_context().to_new_recipe();
    assert_eq!(recipe.instructions, Some("Whisk\nFry".to_string()));
    assert_eq!(recipe.ingredients[0].notes, Some("beaten".to_string()));
    assert_eq!(recipe.ingredients[0].ingredient_id, Some(5));
}

#[test]
fn ingredient_screen_titles() {
    let mut app = RecipeApp::new(vec![]);
    type_text(&mut app, "Tea");
    submit(&mut app);
    match app.render() {
        Screen::IngredientEntry { list_title, lines, input_title, input } => {
            assert_eq!(list_title, "Ingredients for Tea");
            assert!(lines.is_empty());
            assert_eq!(input_title, "Enter ingredients Tea (Enter on empty to continue)");
            assert_eq!(input, "");
        }
        _ => panic!("expected the ingredient screen"),
    }
    type_text(&mut app, "water");
    submit(&mut app);
    app.handle_key(Key::Char('y'));
    submit(&mut app);
    submit(&mut app);
    match app.render() {
        Screen::IngredientEntry { lines, .. } => {
            assert_eq!(lines[0].text, "water");
            assert!(lines[0].notes.is_none());
        }
        _ => panic!("expected the ingredient screen"),
    }
    submit(&mut app);
    match app.render() {
        Screen::InstructionEntry { steps, input_title, .. } => {
            assert_eq!(steps, "");
            assert_eq!(input_title, "Enter step 1 (Enter on empty to finish)");
        }
        _ => panic!("expected the instruction screen"),
    }
}

#[test]
fn draft_keeps_insertion_order() {
    let mut app = RecipeApp::new(vec![]);
    submit(&mut app);
    for name in ["zucchini", "apple", "mango"] {
        type_text(&mut app, name);
        submit(&mut app);
        app.handle_key(Key::Char('y'));
        submit(&mut app);
        submit(&mut app);
    }
    let names: Vec<String> = entries(&app).into_iter().map(|e| e.0).collect();
    assert_eq!(names, vec!["zucchini", "apple", "mango"]);
}
