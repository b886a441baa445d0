use erudition::item::Item;
use erudition::shared::{Hashed, Username};
use erudition::storage::StoredData;

fn item(question: &str, answers: &[&str]) -> Item {
    Item::MultipleChoice {
        answers: answers.iter().map(|a| a.to_string()).collect(),
        question: question.to_string(),
    }
}

#[test]
fn test_feedback() {
    let mut data = StoredData::new();
    assert!(data.get_feedback().is_empty());
    let contents = vec!["Some content\n\u{2240}Heart", "", "\r", "."];
    for content in &contents {
        data.add_feedback(content.to_string());
    }
    let stored: Vec<&str> = data.get_feedback().iter().map(|s| s.as_str()).collect();
    assert_eq!(stored, contents);
    assert!(StoredData::new().get_feedback().is_empty());
}

#[test]
fn test_items() {
    let mut data = StoredData::new();
    assert!(data.get_items().is_empty());
    let mut items = vec![
        item("a", &["b", "c", "d"]),
        item("question", &["answer1", "answer2"]),
        item("only_question", &[]),
    ];
    for it in &items {
        data.add_item(it.clone());
    }
    let new_first = item("e", &["f", "g", "h"]);
    items[0] = new_first.clone();
    let replaced = data.edit_item(0, new_first);
    assert_eq!(replaced, Some(item("a", &["b", "c", "d"])));
    assert_eq!(data.edit_item(123, item("a", &["b"])), None);
    assert_eq!(data.get_items(), items.as_slice());
}

#[test]
fn edit_at_the_length_is_refused() {
    let mut data = StoredData::new();
    data.add_item(item("q", &["a"]));
    assert_eq!(data.edit_item(1, item("x", &[])), None);
    assert_eq!(data.get_items(), &[item("q", &["a"])]);
}

#[test]
fn users_are_registered_once() {
    let mut data = StoredData::new();
    assert!(data.is_empty());
    let alice = Username("alice".to_string());
    assert!(data.add_user(alice.clone(), Hashed("h1".to_string())));
    assert!(!data.add_user(alice.clone(), Hashed("h2".to_string())));
    assert_eq!(data.get_user(&alice), Some(&Hashed("h1".to_string())));
    assert_eq!(data.get_user(&Username("bob".to_string())), None);
    assert!(!data.is_empty());
}

#[test]
fn from_parts_keeps_everything() {
    let users = vec![
        (Username("a".to_string()), Hashed("1".to_string())),
        (Username("b".to_string()), Hashed("2".to_string())),
        (Username("a".to_string()), Hashed("3".to_string())),
    ];
    let data = StoredData::from_parts(vec!["f".to_string()], vec![item("q", &["a"])], users);
    assert_eq!(data.get_feedback(), &["f".to_string()]);
    assert_eq!(data.get_items(), &[item("q", &["a"])]);
    assert_eq!(data.get_user(&Username("a".to_string())), Some(&Hashed("3".to_string())));
    assert_eq!(data.get_user(&Username("b".to_string())), Some(&Hashed("2".to_string())));
    assert_eq!(data.user_entries().len(), 2);
}

#[test]
fn editing_back_restores_the_items() {
    let mut data = StoredData::new();
    data.add_item(item("q1", &["a"]));
    data.add_item(item("q2", &["b"]));
    let before = data.get_items().to_vec();
    let old = data.edit_item(1, item("x", &["y"])).unwrap();
    assert_eq!(data.edit_item(1, old), Some(item("x", &["y"])));
    assert_eq!(data.get_items(), before.as_slice());
}

#[test]
fn rebuilt_users_do_not_depend_on_order() {
    let forward = vec![
        (Username("a".to_string()), Hashed("1".to_string())),
        (Username("b".to_string()), Hashed("2".to_string())),
    ];
    let backward = vec![
        (Username("b".to_string()), Hashed("2".to_string())),
        (Username("a".to_string()), Hashed("1".to_string())),
    ];
    let x = StoredData::from_parts(vec![], vec![], forward);
    let y = StoredData::from_parts(vec![], vec![], backward);
    for name in ["a", "b", "c"] {
        let u = Username(name.to_string());
        assert_eq!(x.get_user(&u), y.get_user(&u));
    }
}
