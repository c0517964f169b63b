use modal_todo::layout::{Layout, LayoutKind};
use modal_todo::style::{HIGHLIGHT_PAIR, REGULAR_PAIR};
use modal_todo::ui::Ui;
use modal_todo::vec2::Vec2;

#[test]
fn vec2_zero_and_new() {
    assert_eq!(Vec2::zero(), Vec2 { x: 0, y: 0 });
    assert_eq!(Vec2::new(3, -4), Vec2 { x: 3, y: -4 });
}

#[test]
fn vec2_adds_and_multiplies_by_component() {
    assert_eq!(Vec2::new(1, 2) + Vec2::new(30, 40), Vec2::new(31, 42));
    assert_eq!(Vec2::new(3, 4) * Vec2::new(5, 6), Vec2::new(15, 24));
    assert_eq!(Vec2::new(7, 9) * Vec2::new(1, 0), Vec2::new(7, 0));
    assert_eq!(Vec2::new(7, 9) * Vec2::new(0, 1), Vec2::new(0, 9));
}

#[test]
fn horizontal_frame_sums_widths_and_keeps_the_tallest() {
    let mut frame = Layout::new(LayoutKind::Horz, Vec2::zero());
    frame.add_widget(Vec2::new(3, 1));
    frame.add_widget(Vec2::new(5, 2));
    assert_eq!(frame.size, Vec2::new(8, 2));
}

#[test]
fn vertical_frame_sums_heights_and_keeps_the_widest() {
    let mut frame = Layout::new(LayoutKind::Vert, Vec2::zero());
    frame.add_widget(Vec2::new(3, 1));
    frame.add_widget(Vec2::new(5, 2));
    assert_eq!(frame.size, Vec2::new(5, 3));
}

#[test]
fn a_new_frame_is_empty_at_its_origin() {
    let frame = Layout::new(LayoutKind::Horz, Vec2::new(4, 5));
    assert_eq!(frame.kind, LayoutKind::Horz);
    assert_eq!(frame.pos, Vec2::new(4, 5));
    assert_eq!(frame.size, Vec2::zero());
    assert_eq!(frame.available_pos(), Vec2::new(4, 5));
}

#[test]
fn available_pos_advances_along_the_direction_only() {
    let mut row = Layout::new(LayoutKind::Horz, Vec2::new(10, 20));
    row.add_widget(Vec2::new(3, 7));
    assert_eq!(row.available_pos(), Vec2::new(13, 20));
    let mut column = Layout::new(LayoutKind::Vert, Vec2::new(10, 20));
    column.add_widget(Vec2::new(3, 7));
    assert_eq!(column.available_pos(), Vec2::new(10, 27));
}

#[test]
fn a_smaller_widget_does_not_shrink_the_frame() {
    let mut row = Layout::new(LayoutKind::Horz, Vec2::zero());
    row.add_widget(Vec2::new(2, 5));
    row.add_widget(Vec2::new(2, 1));
    assert_eq!(row.size, Vec2::new(4, 5));
}

#[test]
fn quit_flag_toggles() {
    let mut ui = Ui::new();
    assert!(!ui.should_quit());
    ui.do_quit();
    assert!(ui.should_quit());
    ui.do_quit();
    assert!(!ui.should_quit());
}

#[test]
fn labels_get_the_next_position_of_the_top_frame() {
    let mut ui = Ui::new();
    ui.begin(LayoutKind::Vert);
    ui.label_with_fix_width("one", REGULAR_PAIR, 10);
    ui.label_with_fix_width("two", HIGHLIGHT_PAIR, 4);
    assert_eq!(ui.layouts.len(), 1);
    assert_eq!(ui.layouts[0].size, Vec2::new(10, 2));
    ui.end();
    assert!(ui.layouts.is_empty());
    assert_eq!(ui.labels.len(), 2);
    assert_eq!(ui.labels[0].pos, Vec2::new(0, 0));
    assert_eq!(ui.labels[0].text, "one");
    assert_eq!(ui.labels[0].pair, REGULAR_PAIR);
    assert_eq!(ui.labels[1].pos, Vec2::new(0, 1));
    assert_eq!(ui.labels[1].text, "two");
    assert_eq!(ui.labels[1].pair, HIGHLIGHT_PAIR);
}

#[test]
fn labels_carry_the_attribute_of_their_pair() {
    let mut ui = Ui::new();
    ui.begin(LayoutKind::Vert);
    ui.label_with_fix_width("a", REGULAR_PAIR, 1);
    ui.label_with_fix_width("b", HIGHLIGHT_PAIR, 1);
    ui.label_with_fix_width("c", 5, 1);
    ui.label_with_fix_width("d", i16::MAX, 1);
    ui.label_with_fix_width("e", -1, 1);
    ui.label_with_fix_width("f", i16::MIN, 1);
    ui.end();
    assert_eq!(ui.labels[0].attr, 0);
    assert_eq!(ui.labels[1].attr, 256);
    assert_eq!(ui.labels[2].attr, 1280);
    assert_eq!(ui.labels[3].attr, 8388352);
    assert_eq!(ui.labels[4].attr, 4294967040);
    assert_eq!(ui.labels[5].attr, 4286578688);
}

#[test]
fn nested_frames_fold_into_their_parent() {
    let mut ui = Ui::new();
    ui.begin(LayoutKind::Horz);
    ui.begin_layout(LayoutKind::Vert);
    ui.label_with_fix_width("a", REGULAR_PAIR, 5);
    ui.label_with_fix_width("b", REGULAR_PAIR, 7);
    ui.end_layout();
    assert_eq!(ui.layouts.len(), 1);
    assert_eq!(ui.layouts[0].size, Vec2::new(7, 2));
    ui.begin_layout(LayoutKind::Vert);
    assert_eq!(ui.layouts[1].pos, Vec2::new(7, 0));
    ui.label_with_fix_width("c", REGULAR_PAIR, 3);
    ui.end_layout();
    assert_eq!(ui.layouts[0].size, Vec2::new(10, 2));
    ui.end();
    assert_eq!(ui.labels[2].pos, Vec2::new(7, 0));
}

#[test]
fn begin_forgets_the_labels_of_the_pass_before() {
    let mut ui = Ui::new();
    ui.begin(LayoutKind::Vert);
    ui.label_with_fix_width("old", REGULAR_PAIR, 3);
    ui.end();
    ui.begin(LayoutKind::Vert);
    assert!(ui.labels.is_empty());
    assert_eq!(ui.layouts[0], Layout::new(LayoutKind::Vert, Vec2::zero()));
    ui.end();
}
