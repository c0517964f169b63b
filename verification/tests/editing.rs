use modal_todo::edit::{
    backspace, char_count, delete_forward, move_left, move_right, type_char,
};
use modal_todo::mode::Mode;
use modal_todo::selection::Selection;
use modal_todo::status::Status;

#[test]
fn typing_puts_the_character_at_the_cursor() {
    let mut text = String::from("ac");
    let mut cursor = 1;
    type_char(&mut text, &mut cursor, 'b');
    assert_eq!(text, "abc");
    assert_eq!(cursor, 2);
    type_char(&mut text, &mut cursor, 'X');
    assert_eq!(text, "abXc");
    assert_eq!(cursor, 3);
}

#[test]
fn typing_at_both_ends() {
    let mut text = String::from("b");
    let mut cursor = 0;
    type_char(&mut text, &mut cursor, 'a');
    assert_eq!(text, "ab");
    assert_eq!(cursor, 1);
    let mut cursor = 2;
    type_char(&mut text, &mut cursor, 'c');
    assert_eq!(text, "abc");
    assert_eq!(cursor, 3);
    let mut empty = String::new();
    let mut cursor = 0;
    type_char(&mut empty, &mut cursor, 'z');
    assert_eq!(empty, "z");
    assert_eq!(cursor, 1);
}

#[test]
fn typing_beyond_the_end_does_nothing() {
    let mut text = String::from("ab");
    let mut cursor = 3;
    type_char(&mut text, &mut cursor, 'c');
    assert_eq!(text, "ab");
    assert_eq!(cursor, 3);
}

#[test]
fn positions_count_characters() {
    let mut text = String::from("héllo");
    assert_eq!(char_count(&text), 5);
    let mut cursor = 2;
    type_char(&mut text, &mut cursor, 'x');
    assert_eq!(text, "héxllo");
    assert_eq!(cursor, 3);
    let mut cursor = 2;
    backspace(&mut text, &mut cursor);
    assert_eq!(text, "hxllo");
    assert_eq!(cursor, 1);
}

#[test]
fn backspace_removes_the_character_before_the_cursor() {
    let mut text = String::from("abc");
    let mut cursor = 2;
    backspace(&mut text, &mut cursor);
    assert_eq!(text, "ac");
    assert_eq!(cursor, 1);
    backspace(&mut text, &mut cursor);
    assert_eq!(text, "c");
    assert_eq!(cursor, 0);
    backspace(&mut text, &mut cursor);
    assert_eq!(text, "c");
    assert_eq!(cursor, 0);
}

#[test]
fn backspace_at_the_end_and_beyond() {
    let mut text = String::from("abc");
    let mut cursor = 3;
    backspace(&mut text, &mut cursor);
    assert_eq!(text, "ab");
    assert_eq!(cursor, 2);
    let mut cursor = 5;
    backspace(&mut text, &mut cursor);
    assert_eq!(text, "ab");
    assert_eq!(cursor, 5);
}

#[test]
fn forward_delete_removes_the_character_at_the_cursor() {
    let mut text = String::from("abc");
    delete_forward(&mut text, 1);
    assert_eq!(text, "ac");
    delete_forward(&mut text, 0);
    assert_eq!(text, "c");
    delete_forward(&mut text, 1);
    assert_eq!(text, "c");
    delete_forward(&mut text, 0);
    assert_eq!(text, "");
    delete_forward(&mut text, 0);
    assert_eq!(text, "");
}

#[test]
fn the_text_cursor_stays_between_the_ends() {
    let mut cursor = 1;
    move_left(&mut cursor);
    assert_eq!(cursor, 0);
    move_left(&mut cursor);
    assert_eq!(cursor, 0);
    move_right(2, &mut cursor);
    assert_eq!(cursor, 1);
    move_right(2, &mut cursor);
    assert_eq!(cursor, 2);
    move_right(2, &mut cursor);
    assert_eq!(cursor, 2);
    move_right(0, &mut cursor);
    assert_eq!(cursor, 2);
}

#[test]
fn mode_names() {
    assert_eq!(Mode::Normal.to_string(), "NORMAL");
    assert_eq!(Mode::Visual.to_string(), "VISUAL");
    assert_eq!(Mode::Insert.to_string(), "INSERT");
}

#[test]
fn status_toggles_between_the_two() {
    assert_eq!(Status::Todo.toggle(), Status::Done);
    assert_eq!(Status::Done.toggle(), Status::Todo);
    assert_eq!(Status::Todo.toggle().toggle(), Status::Todo);
}

#[test]
fn selection_toggles_membership() {
    let a = String::from("A");
    let b = String::from("B");
    let mut selected = Selection::new();
    assert!(selected.is_empty());
    assert!(!selected.contains(&a));
    selected.toggle(&a);
    assert!(selected.contains(&a));
    assert!(!selected.contains(&b));
    assert_eq!(selected.len(), 1);
    selected.toggle(&b);
    assert_eq!(selected.len(), 2);
    selected.toggle(&a);
    assert!(!selected.contains(&a));
    assert!(selected.contains(&b));
    assert_eq!(selected.to_vec(), vec![String::from("B")]);
    selected.clear();
    assert!(selected.is_empty());
    assert!(!selected.contains(&b));
}

#[test]
fn selection_hands_its_members_out_in_the_order_of_arrival() {
    let mut selected = Selection::new();
    for text in ["C", "A", "B"] {
        selected.toggle(&String::from(text));
    }
    selected.toggle(&String::from("A"));
    selected.toggle(&String::from("A"));
    assert_eq!(
        selected.to_vec(),
        vec![String::from("C"), String::from("B"), String::from("A")]
    );
}

#[test]
fn equal_texts_are_one_member() {
    let mut selected = Selection::new();
    selected.toggle(&String::from("same"));
    assert!(selected.contains(&String::from("same")));
    selected.toggle(&String::from("same"));
    assert!(selected.is_empty());
}
