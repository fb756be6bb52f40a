use todo_app::clock::Timestamp;
use todo_app::models::{Priority, Todo};
use todo_app::text::{char_is_whitespace, same_text, str_contains, str_is_blank};

#[test]
fn priorities_have_a_label_and_a_stored_name() {
    assert_eq!(Priority::Low.as_str(), "Low");
    assert_eq!(Priority::Medium.as_str(), "Medium");
    assert_eq!(Priority::High.as_str(), "High");
    assert_eq!(Priority::High.to_string(), "High");
    assert_eq!(Priority::Low.as_db_str(), "low");
    assert_eq!(Priority::Medium.as_db_str(), "medium");
    assert_eq!(Priority::High.as_db_str(), "high");
}

#[test]
fn priorities_are_read_back_from_their_names() {
    for p in [Priority::Low, Priority::Medium, Priority::High] {
        assert_eq!(Priority::from_db_str(p.as_db_str()), Some(p));
        assert_eq!(Priority::from_label(p.as_str()), Some(p));
    }
    assert_eq!(Priority::from_db_str("High"), None);
    assert_eq!(Priority::from_db_str(""), None);
    assert_eq!(Priority::from_label("high"), None);
    assert_eq!(Priority::from_label("Urgent"), None);
}

#[test]
fn the_default_priority_is_medium() {
    assert_eq!(Priority::default(), Priority::Medium);
}

#[test]
fn instants_are_ordered_by_seconds_then_nanoseconds() {
    let a = Timestamp::new(10, 999_999_999);
    let b = Timestamp::new(11, 0);
    let c = Timestamp::new(11, 1);
    assert!(b.is_after(&a));
    assert!(c.is_after(&b));
    assert!(!a.is_after(&b));
    assert!(!a.is_after(&a));
    assert!(Timestamp::new(-1, 0).is_after(&Timestamp::new(-2, 5)));
}

#[test]
fn a_new_todo_is_open_and_stamped_once() {
    let todo = Todo::new(7, "Read".to_string(), Some("chapter 2".to_string()), Priority::Low);
    assert_eq!(todo.user_id, 7);
    assert_eq!(todo.title, "Read");
    assert_eq!(todo.description, Some("chapter 2".to_string()));
    assert_eq!(todo.priority, Priority::Low);
    assert!(!todo.completed);
    assert_eq!(todo.created_at, todo.updated_at);
    let other = Todo::new(7, "Read".to_string(), None, Priority::Low);
    assert_ne!(todo.id, other.id);
}

#[test]
fn toggling_turns_the_flag_over_and_keeps_the_rest() {
    let mut todo = Todo::new(7, "Read".to_string(), None, Priority::High);
    let before = todo.clone();
    todo.toggle_completed();
    assert!(todo.completed);
    assert_eq!(todo.id, before.id);
    assert_eq!(todo.user_id, before.user_id);
    assert_eq!(todo.title, before.title);
    assert_eq!(todo.description, before.description);
    assert_eq!(todo.priority, before.priority);
    assert_eq!(todo.created_at, before.created_at);
    assert!(!before.updated_at.is_after(&todo.updated_at));
    todo.toggle_completed();
    assert!(!todo.completed);
}

#[test]
fn a_clone_equals_the_todo_it_was_made_of() {
    let todo = Todo::new(7, "Read".to_string(), Some("d".to_string()), Priority::High);
    assert_eq!(todo.clone(), todo);
}

#[test]
fn whitespace_is_what_the_standard_library_trims() {
    let mut n: u32 = 0;
    while n <= 0x10FFFF {
        if let Some(c) = char::from_u32(n) {
            assert_eq!(char_is_whitespace(c), c.is_whitespace(), "U+{:04X}", n);
        }
        n += 1;
    }
}

#[test]
fn blank_texts_are_those_that_trim_to_nothing() {
    for s in ["", " ", "\t\n\r", "\u{a0}\u{2003}\u{3000}", " a ", "a", "\u{200b}", "  .  "] {
        assert_eq!(str_is_blank(s), s.trim().is_empty(), "{:?}", s);
    }
    assert!(str_is_blank(""));
    assert!(str_is_blank(" \t"));
    assert!(!str_is_blank(" x "));
}

#[test]
fn texts_are_searched_and_compared_by_character() {
    assert!(str_contains("a@b", '@'));
    assert!(!str_contains("ab", '@'));
    assert!(!str_contains("", '@'));
    assert!(str_contains("né", 'é'));
    assert!(same_text("abc", "abc"));
    assert!(!same_text("abc", "abd"));
    assert!(!same_text("abc", "ab"));
    assert!(same_text("", ""));
}
