use feedme::error::FeedMeError;
use feedme::models::{Recipe, RecipeIngredient, RecipeRecord};
use feedme::persist::{assemble_recipe, IngredientRef, NewRecipe};
use feedme::writer::{RecipeWriter, StoreCommand, StoreReply, WriteStep};

/// An in-memory store with transactions, for driving the writer.
#[derive(Clone, Default)]
struct Tables {
    ingredients: Vec<String>,
    recipes: Vec<(String, Option<String>)>,
    links: Vec<(i64, i64, String, Option<String>)>,
}

#[derive(Default)]
struct FakeStore {
    tables: Tables,
    saved: Option<Tables>,
    fail_at: Option<usize>,
    executed: usize,
}

impl FakeStore {
    fn run(&mut self, recipe: &NewRecipe, cmd: StoreCommand) -> StoreReply {
        let n = self.executed;
        self.executed += 1;
        if self.fail_at == Some(n) {
            return StoreReply::Failed;
        }
        let t = &mut self.tables;
        match cmd {
            StoreCommand::BeginTransaction => {
                self.saved = Some(t.clone());
                StoreReply::Done
            }
            StoreCommand::InsertRecipe => {
                t.recipes.push((recipe.name.clone(), recipe.instructions.clone()));
                StoreReply::Inserted(t.recipes.len() as i64)
            }
            StoreCommand::FindIngredient(i) => {
                let name = &recipe.ingredients[i].ingredient_name;
                StoreReply::Found(t.ingredients.iter().position(|n| n == name).map(|p| p as i64 + 1))
            }
            StoreCommand::CreateIngredient(i) => {
                let name = &recipe.ingredients[i].ingredient_name;
                if t.ingredients.contains(name) {
                    StoreReply::Failed
                } else {
                    t.ingredients.push(name.clone());
                    StoreReply::Inserted(t.ingredients.len() as i64)
                }
            }
            StoreCommand::InsertLink { recipe_id, ingredient_id, position } => {
                let x = &recipe.ingredients[position];
                t.links.push((recipe_id, ingredient_id, x.quantity_unit.clone(), x.notes.clone()));
                StoreReply::Done
            }
            StoreCommand::Commit => {
                self.saved = None;
                StoreReply::Done
            }
            StoreCommand::Rollback => {
                if let Some(saved) = self.saved.take() {
                    self.tables = saved;
                }
                StoreReply::Done
            }
        }
    }

    fn write(&mut self, recipe: NewRecipe) -> (WriteStep, Vec<StoreCommand>) {
        let (mut writer, first) = RecipeWriter::new(recipe);
        let mut commands = vec![first];
        let mut reply = self.run(&writer.recipe, first);
        loop {
            match writer.step(reply) {
                WriteStep::Run(cmd) => {
                    commands.push(cmd);
                    reply = self.run(&writer.recipe, cmd);
                }
                done => return (done, commands),
            }
        }
    }

    /// The rows that reading a recipe back fetches, assembled.
    fn read(&self, id: i64) -> Result<Recipe, FeedMeError> {
        let t = &self.tables;
        let record = t.recipes.get((id - 1) as usize).map(|(name, instructions)| RecipeRecord {
            id,
            name: name.clone(),
            instructions: instructions.clone(),
            created_at: "2024-01-01 00:00:00".to_string(),
        });
        let rows = t
            .links
            .iter()
            .filter(|l| l.0 == id)
            .map(|l| RecipeIngredient {
                ingredient_id: l.1,
                ingredient_name: t.ingredients[(l.1 - 1) as usize].clone(),
                quantity_unit: l.2.clone(),
                notes: l.3.clone(),
            })
            .collect();
        assemble_recipe(id, record, rows)
    }
}

fn ingredient(id: Option<i64>, name: &str, quantity: &str, notes: Option<&str>) -> IngredientRef {
    IngredientRef {
        ingredient_id: id,
        ingredient_name: name.to_string(),
        quantity_unit: quantity.to_string(),
        notes: notes.map(|n| n.to_string()),
    }
}

#[test]
fn test_get_recipe_not_found() {
    match assemble_recipe(999, None, vec![]) {
        Err(FeedMeError::RecipeNotFound(id)) => assert_eq!(id, 999),
        _ => panic!("Expected RecipeNotFound error"),
    }
    let store = FakeStore::default();
    assert!(matches!(store.read(3), Err(FeedMeError::RecipeNotFound(3))));
}

#[test]
fn test_get_recipe_no_ingredients() {
    let record = RecipeRecord {
        id: 4,
        name: "Empty Recipe".to_string(),
        instructions: None,
        created_at: "2024-01-15 10:30:00".to_string(),
    };
    let recipe = assemble_recipe(4, Some(record), vec![]).unwrap();
    assert_eq!(recipe.id, 4);
    assert_eq!(recipe.name, "Empty Recipe");
    assert_eq!(recipe.ingredients.len(), 0);
    assert_eq!(recipe.instructions, None);
    assert_eq!(recipe.created_at, "2024-01-15 10:30:00");
}

#[test]
fn create_then_get_round_trips() {
    let mut store = FakeStore::default();
    store.tables.ingredients = vec!["pasta".to_string(), "bacon".to_string(), "eggs".to_string()];
    let recipe = NewRecipe {
        name: "Pasta Carbonara".to_string(),
        instructions: Some("Cook pasta, fry bacon, mix with eggs".to_string()),
        ingredients: vec![
            ingredient(Some(1), "pasta", "500g", Some("spaghetti")),
            ingredient(Some(2), "bacon", "200g", None),
            ingredient(Some(3), "eggs", "3 whole", None),
        ],
    };
    let (outcome, commands) = store.write(recipe);
    assert_eq!(outcome, WriteStep::Committed(1));
    assert_eq!(commands.len(), 6);
    assert_eq!(commands[0], StoreCommand::BeginTransaction);
    assert_eq!(commands[1], StoreCommand::InsertRecipe);
    assert_eq!(commands[2], StoreCommand::InsertLink { recipe_id: 1, ingredient_id: 1, position: 0 });
    assert_eq!(commands[5], StoreCommand::Commit);
    let read = store.read(1).unwrap();
    assert_eq!(read.name, "Pasta Carbonara");
    assert_eq!(read.instructions, Some("Cook pasta, fry bacon, mix with eggs".to_string()));
    let got: Vec<(String, String, Option<String>)> = read
        .ingredients
        .iter()
        .map(|i| (i.ingredient_name.clone(), i.quantity_unit.clone(), i.notes.clone()))
        .collect();
    assert_eq!(
        got,
        vec![
            ("pasta".to_string(), "500g".to_string(), Some("spaghetti".to_string())),
            ("bacon".to_string(), "200g".to_string(), None),
            ("eggs".to_string(), "3 whole".to_string(), None),
        ]
    );
}

#[test]
fn empty_ingredient_list_is_valid() {
    let mut store = FakeStore::default();
    let (outcome, commands) = store.write(NewRecipe {
        name: "Simple Recipe".to_string(),
        instructions: Some("Just do it".to_string()),
        ingredients: vec![],
    });
    assert_eq!(outcome, WriteStep::Committed(1));
    assert_eq!(
        commands,
        vec![StoreCommand::BeginTransaction, StoreCommand::InsertRecipe, StoreCommand::Commit]
    );
    let read = store.read(1).unwrap();
    assert_eq!(read.name, "Simple Recipe");
    assert!(read.ingredients.is_empty());
}

#[test]
fn shared_ingredient_is_stored_once() {
    let mut store = FakeStore::default();
    let (first, _) = store.write(NewRecipe {
        name: "Pancakes".to_string(),
        instructions: None,
        ingredients: vec![ingredient(None, "flour", "2 cups", None)],
    });
    assert_eq!(first, WriteStep::Committed(1));
    let (second, commands) = store.write(NewRecipe {
        name: "Bread".to_string(),
        instructions: None,
        ingredients: vec![ingredient(None, "flour", "3 cups", None)],
    });
    assert_eq!(second, WriteStep::Committed(2));
    assert!(!commands.iter().any(|c| matches!(c, StoreCommand::CreateIngredient(_))));
    let flour_rows = store.tables.ingredients.iter().filter(|n| *n == "flour").count();
    assert_eq!(flour_rows, 1, "Flour ingredient should be reused, not duplicated");
    assert_eq!(store.read(2).unwrap().ingredients[0].ingredient_id, 1);
}

#[test]
fn pancakes_draft_creates_only_milk() {
    let mut store = FakeStore::default();
    store.tables.ingredients = vec!["flour".to_string()];
    let (outcome, commands) = store.write(NewRecipe {
        name: "Pancakes".to_string(),
        instructions: Some("Mix".to_string()),
        ingredients: vec![
            ingredient(Some(1), "flour", "2 cups", None),
            ingredient(None, "milk", "1 cup", None),
        ],
    });
    assert_eq!(outcome, WriteStep::Committed(1));
    assert_eq!(commands.iter().filter(|c| matches!(c, StoreCommand::CreateIngredient(_))).count(), 1);
    assert_eq!(store.tables.ingredients, vec!["flour".to_string(), "milk".to_string()]);
    let read = store.read(1).unwrap();
    assert_eq!(read.instructions, Some("Mix".to_string()));
    assert_eq!(read.ingredients[1].ingredient_name, "milk");
    assert_eq!(read.ingredients[1].ingredient_id, 2);
}

#[test]
fn failure_rolls_back_everything() {
    let mut store = FakeStore::default();
    store.fail_at = Some(4);
    let (outcome, commands) = store.write(NewRecipe {
        name: "Waffles".to_string(),
        instructions: None,
        ingredients: vec![
            ingredient(None, "flour", "2.5 cups", None),
            ingredient(None, "butter", "0.5 cup", Some("melted")),
        ],
    });
    assert_eq!(outcome, WriteStep::Aborted);
    assert_eq!(commands.last(), Some(&StoreCommand::Rollback));
    assert!(store.tables.recipes.is_empty());
    assert!(store.tables.ingredients.is_empty());
    assert!(store.tables.links.is_empty());
}

#[test]
fn failed_begin_or_commit_aborts() {
    let mut store = FakeStore::default();
    store.fail_at = Some(0);
    let (outcome, commands) = store.write(NewRecipe {
        name: "A".to_string(),
        instructions: None,
        ingredients: vec![],
    });
    assert_eq!(outcome, WriteStep::Aborted);
    assert_eq!(commands, vec![StoreCommand::BeginTransaction]);

    let (mut writer, _) = RecipeWriter::new(NewRecipe {
        name: "B".to_string(),
        instructions: None,
        ingredients: vec![],
    });
    assert_eq!(writer.step(StoreReply::Done), WriteStep::Run(StoreCommand::InsertRecipe));
    assert_eq!(writer.step(StoreReply::Inserted(8)), WriteStep::Run(StoreCommand::Commit));
    assert_eq!(writer.step(StoreReply::Failed), WriteStep::Aborted);
    assert_eq!(writer.step(StoreReply::Done), WriteStep::Aborted);
}

#[test]
fn unexpected_reply_rolls_back() {
    let (mut writer, _) = RecipeWriter::new(NewRecipe {
        name: "C".to_string(),
        instructions: None,
        ingredients: vec![ingredient(None, "rice", "1 cup", None)],
    });
    assert_eq!(writer.step(StoreReply::Done), WriteStep::Run(StoreCommand::InsertRecipe));
    assert_eq!(writer.step(StoreReply::Inserted(3)), WriteStep::Run(StoreCommand::FindIngredient(0)));
    assert_eq!(writer.step(StoreReply::Done), WriteStep::Run(StoreCommand::Rollback));
    assert_eq!(writer.step(StoreReply::Done), WriteStep::Aborted);
}

#[test]
fn stored_recipe_from_api_value_keeps_ids() {
    let recipe = Recipe {
        id: 0,
        name: "Pancakes".to_string(),
        instructions: None,
        ingredients: vec![RecipeIngredient {
            ingredient_id: 7,
            ingredient_name: "flour".to_string(),
            quantity_unit: "2 cups".to_string(),
            notes: Some("all-purpose".to_string()),
        }],
        created_at: String::new(),
    };
    let new = NewRecipe::from_recipe(&recipe);
    assert_eq!(new.name, "Pancakes");
    assert_eq!(new.ingredients[0].ingredient_id, Some(7));
    assert_eq!(new.ingredients[0].notes, Some("all-purpose".to_string()));
}
