use feedme::error::FeedMeError;
use feedme::models::{Recipe, RecipeIngredient, ShoppingListItem};

#[test]
fn test_recipe_to_string_with_all_fields() {
    let recipe = Recipe {
        id: 1,
        name: "Chocolate Chip Cookies".to_string(),
        instructions: Some("Mix and bake at 350°F for 12 minutes".to_string()),
        created_at: "2024-01-15 10:30:00".to_string(),
        ingredients: vec![
            RecipeIngredient {
                ingredient_id: 1,
                ingredient_name: "flour".to_string(),
                quantity_unit: "2 cups".to_string(),
                notes: Some("all-purpose".to_string()),
            },
            RecipeIngredient {
                ingredient_id: 2,
                ingredient_name: "sugar".to_string(),
                quantity_unit: "1 cup".to_string(),
                notes: None,
            },
        ],
    };

    let output = recipe.to_string();

    assert!(output.contains("Recipe: Chocolate Chip Cookies"));
    assert!(output.contains("ID: 1"));
    assert!(output.contains("2 cups flour (all-purpose)"));
    assert!(output.contains("1 cup sugar"));
    assert!(output.contains("Mix and bake at 350°F for 12 minutes"));
}

#[test]
fn test_recipe_to_string_without_instructions() {
    let recipe = Recipe {
        id: 2,
        name: "Simple Salad".to_string(),
        instructions: None,
        created_at: "2024-01-15 11:00:00".to_string(),
        ingredients: vec![RecipeIngredient {
            ingredient_id: 1,
            ingredient_name: "lettuce".to_string(),
            quantity_unit: "1 head".to_string(),
            notes: None,
        }],
    };

    let output = recipe.to_string();

    assert!(output.contains("Recipe: Simple Salad"));
    assert!(output.contains("1 head lettuce"));
    assert!(!output.contains("Instructions:"));
}

#[test]
fn recipe_text_is_exact() {
    let recipe = Recipe {
        id: 42,
        name: "Toast".to_string(),
        instructions: Some("Toast it\nButter it".to_string()),
        created_at: "2024-02-01 08:00:00".to_string(),
        ingredients: vec![
            RecipeIngredient {
                ingredient_id: 3,
                ingredient_name: "bread".to_string(),
                quantity_unit: "2 slices".to_string(),
                notes: Some("sourdough".to_string()),
            },
            RecipeIngredient {
                ingredient_id: 4,
                ingredient_name: "butter".to_string(),
                quantity_unit: "1 tbsp".to_string(),
                notes: None,
            },
        ],
    };
    assert_eq!(
        recipe.to_string(),
        "Recipe: Toast\nID: 42\nCreated: 2024-02-01 08:00:00\n\nIngredients:\n  - 2 slices bread (sourdough)\n  - 1 tbsp butter\n\nInstructions:\nToast it\nButter it\n"
    );
}

#[test]
fn recipe_text_without_ingredients_or_instructions() {
    let recipe = Recipe {
        id: 7,
        name: "Water".to_string(),
        instructions: None,
        created_at: "now".to_string(),
        ingredients: vec![],
    };
    assert_eq!(recipe.to_string(), "Recipe: Water\nID: 7\nCreated: now\n\nIngredients:\n");
}

#[test]
fn recipe_text_writes_large_and_negative_ids() {
    let mut recipe = Recipe {
        id: -305,
        name: "X".to_string(),
        instructions: None,
        created_at: String::new(),
        ingredients: vec![],
    };
    assert!(recipe.to_string().contains("ID: -305\n"));
    recipe.id = i64::MIN;
    assert!(recipe.to_string().contains("ID: -9223372036854775808\n"));
    recipe.id = i64::MAX;
    assert!(recipe.to_string().contains("ID: 9223372036854775807\n"));
    recipe.id = 0;
    assert!(recipe.to_string().contains("ID: 0\n"));
}

#[test]
fn shopping_item_text() {
    let item = ShoppingListItem {
        ingredient_name: "flour".to_string(),
        combined_quantity: "2 cups + 3 cups".to_string(),
    };
    assert_eq!(item.to_string(), "flour: 2 cups + 3 cups");
}

#[test]
fn error_messages() {
    assert_eq!(FeedMeError::RecipeNotFound(999).message(), "Recipe not found with id: 999");
    assert_eq!(FeedMeError::IngredientNotFound(12).message(), "Ingredient not found with id: 12");
    assert_eq!(
        FeedMeError::Database("disk full".to_string()).message(),
        "Database error: disk full"
    );
    assert_eq!(
        FeedMeError::Conflict("flour".to_string()).message(),
        "Conflict: flour"
    );
}
