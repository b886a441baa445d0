use erudition::item::Item;
use erudition::questions::{current_question, next_index};

#[test]
fn cycling_through_items() {
    assert_eq!(next_index(0, 3), 1);
    assert_eq!(next_index(2, 3), 0);
    assert_eq!(next_index(5, 0), 5);
    assert_eq!(next_index(7, 3), 2);
}

#[test]
fn question_shown() {
    let items = vec![Item::MultipleChoice { answers: vec![], question: "Q1".to_string() }];
    assert_eq!(current_question(&items, 0), "Q1");
    assert_eq!(current_question(&items, 1), "a question");
    assert_eq!(current_question(&[], 0), "a question");
}

#[test]
fn next_once_per_item_comes_back() {
    for len in 1..6usize {
        for start in 0..len {
            let mut i = start;
            for _ in 0..len {
                i = next_index(i, len);
                assert!(i < len);
            }
            assert_eq!(i, start);
        }
    }
}
