use erudition::initialise::{capital_item_of, ensure_no_data, geography_items, DataPresent, GeographyError};
use erudition::storage::StoredData;
use erudition::item::Item;

fn capital(name: &str, city: &str) -> Item {
    Item::MultipleChoice {
        answers: vec![format!("The capital of {name} is {city}")],
        question: format!("What is the capital of {name}?"),
    }
}

#[test]
fn capital_items() {
    assert_eq!(capital_item_of("France", "Paris"), capital("France", "Paris"));
}

#[test]
fn geography_rows_without_capital_are_skipped() {
    let names = vec![Some("France".to_string()), Some("Antarctica".to_string()), Some("Peru".to_string())];
    let capitals = vec![Some("Paris".to_string()), None, Some("Lima".to_string())];
    let (items, res) = geography_items(&names, &capitals);
    assert_eq!(res, Ok(()));
    assert_eq!(items, vec![capital("France", "Paris"), capital("Peru", "Lima")]);
}

#[test]
fn geography_stops_at_missing_name() {
    let names = vec![Some("France".to_string()), None, Some("Peru".to_string())];
    let capitals = vec![Some("Paris".to_string()), Some("X".to_string()), Some("Lima".to_string())];
    let (items, res) = geography_items(&names, &capitals);
    assert_eq!(res, Err(GeographyError::MissingName(1)));
    assert_eq!(items, vec![capital("France", "Paris")]);
}

#[test]
fn geography_uses_the_shorter_column() {
    let names = vec![Some("France".to_string()), None];
    let capitals = vec![Some("Paris".to_string())];
    let (items, res) = geography_items(&names, &capitals);
    assert_eq!(res, Ok(()));
    assert_eq!(items.len(), 1);
}

#[test]
fn initialise_needs_an_empty_store() {
    let mut data = StoredData::new();
    assert_eq!(ensure_no_data(&data), Ok(()));
    data.add_feedback("x".to_string());
    assert_eq!(ensure_no_data(&data), Err(DataPresent));
}
