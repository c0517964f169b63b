use modal_todo::app::App;
use modal_todo::key_map::{KEYMAP_D, KEYMAP_J, KEYMAP_SHIFT_I, KEYMAP_TAB, KEYMAP_V};
use modal_todo::layout::LayoutKind;
use modal_todo::style::{HIGHLIGHT_PAIR, REGULAR_PAIR};
use modal_todo::vec2::Vec2;

fn owned(items: &[&str]) -> Vec<String> {
    items.iter().map(|s| s.to_string()).collect()
}

fn drawn(app: &App) -> Vec<(i32, i32, String, i16)> {
    app.ui
        .labels
        .iter()
        .map(|l| (l.pos.x, l.pos.y, l.text.clone(), l.pair))
        .collect()
}

fn label(x: i32, y: i32, text: &str, pair: i16) -> (i32, i32, String, i16) {
    (x, y, text.to_string(), pair)
}

#[test]
fn the_screen_shows_both_lists_and_the_status_line() {
    let mut app = App::new(owned(&["A", "B", "C"]), owned(&["X"]));
    app.render(80);
    assert_eq!(
        drawn(&app),
        vec![
            label(0, 0, "TODO", HIGHLIGHT_PAIR),
            label(0, 1, " - [ ] A", HIGHLIGHT_PAIR),
            label(0, 2, " - [ ] B", REGULAR_PAIR),
            label(0, 3, " - [ ] C", REGULAR_PAIR),
            label(40, 0, "DONE", REGULAR_PAIR),
            label(40, 1, " - [x] X", REGULAR_PAIR),
            label(0, 4, "NORMAL", REGULAR_PAIR),
            label(8, 4, " ", REGULAR_PAIR),
        ]
    );
    assert!(app.ui.layouts.is_empty());
}

#[test]
fn the_status_line_stands_below_the_longer_list() {
    let mut app = App::new(owned(&["A"]), owned(&["X", "Y", "Z"]));
    app.render(101);
    let labels = drawn(&app);
    assert_eq!(labels[2], label(50, 0, "DONE", REGULAR_PAIR));
    assert_eq!(labels[5], label(50, 3, " - [x] Z", REGULAR_PAIR));
    assert_eq!(labels[6], label(0, 4, "NORMAL", REGULAR_PAIR));
    assert_eq!(labels[7], label(10, 4, " ", REGULAR_PAIR));
}

#[test]
fn the_focus_decides_what_is_highlighted() {
    let mut app = App::new(owned(&["A", "B"]), owned(&["X", "Y"]));
    app.handle_key(KEYMAP_TAB);
    app.handle_key(KEYMAP_J);
    app.render(20);
    assert_eq!(
        drawn(&app),
        vec![
            label(0, 0, "TODO", REGULAR_PAIR),
            label(0, 1, " - [ ] A", REGULAR_PAIR),
            label(0, 2, " - [ ] B", REGULAR_PAIR),
            label(10, 0, "DONE", HIGHLIGHT_PAIR),
            label(10, 1, " - [x] X", REGULAR_PAIR),
            label(10, 2, " - [x] Y", HIGHLIGHT_PAIR),
            label(0, 3, "NORMAL", REGULAR_PAIR),
            label(2, 3, " ", REGULAR_PAIR),
        ]
    );
}

#[test]
fn visual_mode_highlights_the_selected_texts() {
    let mut app = App::new(owned(&["A", "B", "A"]), owned(&[]));
    app.handle_key(KEYMAP_V);
    app.render(40);
    assert_eq!(drawn(&app)[1], label(0, 1, " - [ ] A", REGULAR_PAIR));
    app.handle_key(KEYMAP_J);
    app.render(40);
    assert_eq!(
        drawn(&app),
        vec![
            label(0, 0, "TODO", HIGHLIGHT_PAIR),
            label(0, 1, " - [ ] A", HIGHLIGHT_PAIR),
            label(0, 2, " - [ ] B", REGULAR_PAIR),
            label(0, 3, " - [ ] A", HIGHLIGHT_PAIR),
            label(20, 0, "DONE", REGULAR_PAIR),
            label(0, 4, "VISUAL", REGULAR_PAIR),
            label(4, 4, " ", REGULAR_PAIR),
        ]
    );
}

#[test]
fn insert_mode_highlights_no_item() {
    let mut app = App::new(owned(&["A"]), owned(&[]));
    app.handle_key(KEYMAP_SHIFT_I);
    app.render(40);
    assert_eq!(
        drawn(&app),
        vec![
            label(0, 0, "TODO", HIGHLIGHT_PAIR),
            label(0, 1, " - [ ] A", REGULAR_PAIR),
            label(20, 0, "DONE", REGULAR_PAIR),
            label(0, 2, "INSERT", REGULAR_PAIR),
            label(4, 2, " ", REGULAR_PAIR),
        ]
    );
}

#[test]
fn the_notification_stands_in_the_status_line() {
    let mut app = App::new(owned(&[]), owned(&["X"]));
    app.handle_key(KEYMAP_TAB);
    app.handle_key(KEYMAP_D);
    app.render(30);
    assert_eq!(
        drawn(&app),
        vec![
            label(0, 0, "TODO", REGULAR_PAIR),
            label(15, 0, "DONE", HIGHLIGHT_PAIR),
            label(0, 1, "NORMAL", REGULAR_PAIR),
            label(3, 1, "Item moved to TODO ", REGULAR_PAIR),
        ]
    );
}

#[test]
fn rendering_again_replaces_the_labels() {
    let mut app = App::new(owned(&["A"]), owned(&[]));
    app.render(10);
    let first = drawn(&app);
    app.render(10);
    assert_eq!(drawn(&app), first);
    assert_eq!(first.len(), 5);
}

#[test]
fn rendering_changes_nothing_but_the_labels() {
    let mut app = App::new(owned(&["A", "B"]), owned(&["X"]));
    app.handle_key(KEYMAP_J);
    app.render(80);
    assert_eq!(app.todos.items, owned(&["A", "B"]));
    assert_eq!(app.dones.items, owned(&["X"]));
    assert_eq!(app.todos.curr, 1);
    assert!(!app.should_quit());
}

#[test]
fn a_screen_without_width_stacks_everything_at_the_left_edge() {
    let mut app = App::new(owned(&["A"]), owned(&["X"]));
    app.render(0);
    let labels = drawn(&app);
    assert_eq!(labels[2], label(0, 0, "DONE", REGULAR_PAIR));
    assert_eq!(labels[5], label(0, 2, " ", REGULAR_PAIR));
}

#[test]
fn a_negative_width_keeps_the_columns_at_the_left_edge() {
    let mut app = App::new(owned(&["A"]), owned(&["X"]));
    app.render(-25);
    let labels = drawn(&app);
    assert_eq!(labels[0].0, 0);
    assert_eq!(labels[2], label(0, 0, "DONE", REGULAR_PAIR));
    assert_eq!(labels[4], label(0, 2, "NORMAL", REGULAR_PAIR));
    assert_eq!(labels[5], label(-2, 2, " ", REGULAR_PAIR));
    assert_eq!(app.ui.labels[5].pos, Vec2::new(-2, 2));
}

#[test]
fn a_screen_can_be_rendered_while_it_fits() {
    let mut app = App::new(owned(&["A"]), owned(&[]));
    assert!(app.can_render(0));
    assert!(app.can_render(80));
    assert!(app.can_render(238609294));
    assert!(!app.can_render(238609295));
    assert!(app.can_render(-238609294));
    assert!(!app.can_render(-238609295));
    assert!(!app.can_render(i32::MAX));
    assert!(!app.can_render(i32::MIN));
    app.ui.begin(LayoutKind::Vert);
    assert!(!app.can_render(80));
    app.ui.end();
    assert!(app.can_render(80));
}

#[test]
fn the_widest_screen_that_fits_is_laid_out() {
    let mut app = App::new(owned(&["A"]), owned(&["X"]));
    app.render(238609294);
    let labels = drawn(&app);
    assert_eq!(labels[2], label(119304647, 0, "DONE", REGULAR_PAIR));
    assert_eq!(labels[5], label(23860929, 2, " ", REGULAR_PAIR));
}

#[test]
fn render_returns_the_size_of_the_screen() {
    let mut app = App::new(owned(&["A", "B", "C"]), owned(&["X"]));
    assert_eq!(app.render(80), Vec2::new(80, 5));
    assert_eq!(app.render(101), Vec2::new(100, 5));
    assert_eq!(app.render(9), Vec2::new(8, 5));
    assert_eq!(app.render(0), Vec2::new(0, 5));
    assert_eq!(app.render(-25), Vec2::new(0, 5));
    let mut empty = App::new(owned(&[]), owned(&[]));
    assert_eq!(empty.render(40), Vec2::new(40, 2));
}
