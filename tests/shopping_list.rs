use feedme::models::ShoppingListItem;
use feedme::persist::shopping_list_query;
use feedme::shopping::combine_shopping_list;

fn rows(pairs: &[(&str, &str)]) -> Vec<(String, String)> {
    pairs.iter().map(|(n, q)| (n.to_string(), q.to_string())).collect()
}

fn pairs(items: &[ShoppingListItem]) -> Vec<(String, String)> {
    items
        .iter()
        .map(|i| (i.ingredient_name.clone(), i.combined_quantity.clone()))
        .collect()
}

#[test]
fn empty_recipe_list_needs_no_query() {
    assert!(shopping_list_query(&vec![]).is_none());
    assert!(combine_shopping_list(&vec![]).is_empty());
}

#[test]
fn query_has_one_placeholder_per_recipe() {
    let q = shopping_list_query(&vec![4, 9]).unwrap();
    assert_eq!(
        q,
        "SELECT i.name AS ingredient_name, ri.quantity_unit FROM recipe_ingredients ri JOIN ingredients i ON ri.ingredient_id = i.id WHERE ri.recipe_id IN (?, ?) ORDER BY i.name, ri.id"
    );
    let one = shopping_list_query(&vec![1]).unwrap();
    assert!(one.contains("IN (?)"));
    let three = shopping_list_query(&vec![1, 2, 3]).unwrap();
    assert!(three.contains("IN (?, ?, ?)"));
}

#[test]
fn shared_flour_is_combined_in_row_order() {
    // flour "2 cups" from the first recipe, "3 cups" from the second
    let list = combine_shopping_list(&rows(&[
        ("flour", "2 cups"),
        ("milk", "1 cup"),
        ("flour", "3 cups"),
        ("butter", "1 stick"),
    ]));
    assert_eq!(
        pairs(&list),
        vec![
            ("butter".to_string(), "1 stick".to_string()),
            ("flour".to_string(), "2 cups + 3 cups".to_string()),
            ("milk".to_string(), "1 cup".to_string()),
        ]
    );
}

#[test]
fn list_is_sorted_whatever_the_row_order() {
    let a = combine_shopping_list(&rows(&[("sugar", "1 cup"), ("eggs", "2 whole"), ("flour", "2 cups")]));
    let b = combine_shopping_list(&rows(&[("flour", "2 cups"), ("sugar", "1 cup"), ("eggs", "2 whole")]));
    assert_eq!(pairs(&a), pairs(&b));
    let names: Vec<String> = a.iter().map(|i| i.ingredient_name.clone()).collect();
    assert_eq!(names, vec!["eggs", "flour", "sugar"]);
}

#[test]
fn names_compare_exactly() {
    // different spellings stay apart; upper case sorts before lower case
    let list = combine_shopping_list(&rows(&[("flour", "1 cup"), ("Flour", "2 cups"), ("flo", "3 g")]));
    assert_eq!(
        pairs(&list),
        vec![
            ("Flour".to_string(), "2 cups".to_string()),
            ("flo".to_string(), "3 g".to_string()),
            ("flour".to_string(), "1 cup".to_string()),
        ]
    );
}

#[test]
fn single_recipe_list() {
    let list = combine_shopping_list(&rows(&[("pasta", "500g"), ("tomato sauce", "1 jar")]));
    assert_eq!(list.len(), 2);
    assert_eq!(list[0].ingredient_name, "pasta");
    assert_eq!(list[0].combined_quantity, "500g");
    assert_eq!(list[1].ingredient_name, "tomato sauce");
    assert_eq!(list[1].combined_quantity, "1 jar");
}

#[test]
fn three_quantities_and_empty_quantity() {
    let list = combine_shopping_list(&rows(&[("salt", "1 pinch"), ("salt", ""), ("salt", "2 g")]));
    assert_eq!(pairs(&list), vec![("salt".to_string(), "1 pinch +  + 2 g".to_string())]);
}
