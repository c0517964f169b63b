//! The screen of one state: the two categories side by side, each a heading
//! over its items, and the status line below them.

use vstd::prelude::*;
use vstd::string::StringExecFns;
use crate::app::{App, AppView};
use crate::layout::{larger, Layout, LayoutKind};
use crate::mode::Mode;
use crate::status::Status;
use crate::style::{HIGHLIGHT_PAIR, REGULAR_PAIR};
use crate::ui::{label_at, LabelView, UiView};
use crate::vec2::Vec2;

verus! {

/// The quotient of `a` by a positive `b`, rounded towards zero.
pub open spec fn quotient(a: int, b: int) -> int {
    if a >= 0 {
        a / b
    } else {
        -((-a) / b)
    }
}

/// The heading of a category.
pub open spec fn heading(status: Status) -> Seq<char> {
    match status {
        Status::Todo => "TODO"@,
        Status::Done => "DONE"@,
    }
}

/// What stands before each item of a category.
pub open spec fn bullet(status: Status) -> Seq<char> {
    match status {
        Status::Todo => " - [ ] "@,
        Status::Done => " - [x] "@,
    }
}

/// The colour pair of a heading: highlighted for the category in focus.
pub open spec fn heading_pair(s: AppView, status: Status) -> i16 {
    if s.status == status {
        HIGHLIGHT_PAIR
    } else {
        REGULAR_PAIR
    }
}

/// The colour pair of item `i` of a category. In the category in focus,
/// Normal mode highlights the item under the cursor and Visual mode the
/// items whose text is selected. Nothing else is highlighted.
pub open spec fn item_pair(s: AppView, status: Status, i: int) -> i16 {
    let list = s.list(status);
    if s.status == status && (s.mode == Mode::Normal && list.curr == i || s.mode == Mode::Visual
        && list.selected.contains(list.items[i])) {
        HIGHLIGHT_PAIR
    } else {
        REGULAR_PAIR
    }
}

/// Label `i` of the column of a category whose top left corner is `(x, y)`:
/// the heading first, then one item to a row.
pub open spec fn column_label(s: AppView, status: Status, x: int, y: int, i: int) -> LabelView {
    if i == 0 {
        label_at(Vec2 { x: x as i32, y: y as i32 }, heading(status), heading_pair(s, status))
    } else {
        label_at(
            Vec2 { x: x as i32, y: (y + i) as i32 },
            bullet(status) + s.list(status).items[i - 1],
            item_pair(s, status, i - 1),
        )
    }
}

/// The size of the column of a category whose labels are `width` columns
/// wide: the width, or none where it is negative, and a row for the heading
/// and for each item.
pub open spec fn column_size(s: AppView, status: Status, width: i32) -> Vec2 {
    Vec2 { x: larger(0, width as int) as i32, y: (s.list(status).items.len() + 1) as i32 }
}

/// The labels of the column of a category whose top left corner is `(x, y)`.
pub open spec fn column(s: AppView, status: Status, x: int, y: int) -> Seq<LabelView> {
    Seq::new(s.list(status).items.len() + 1, |i: int| column_label(s, status, x, y, i))
}

/// The two labels of the status line in row `y` of a screen `w` columns
/// wide: the mode's name, and a tenth of the width further the notification
/// with a space behind it.
pub open spec fn status_line(s: AppView, w: int, y: int) -> Seq<LabelView> {
    seq![
        label_at(Vec2 { x: 0, y: y as i32 }, s.mode.name(), REGULAR_PAIR),
        label_at(
            Vec2 { x: quotient(w, 10) as i32, y: y as i32 },
            s.notification + " "@,
            REGULAR_PAIR,
        ),
    ]
}

/// The row of the status line: below the longer of the two columns.
pub open spec fn status_row(s: AppView) -> int {
    1 + larger(s.todos.items.len() as int, s.dones.items.len() as int)
}

/// Every label of the screen `w` columns wide, in the order of drawing: the
/// items to do from the left edge, the items done from the middle, and the
/// status line.
pub open spec fn screen(s: AppView, w: int) -> Seq<LabelView> {
    column(s, Status::Todo, 0, 0) + column(s, Status::Done, larger(0, quotient(w, 2)), 0)
        + status_line(s, w, status_row(s))
}

/// The size of the whole screen `w` columns wide: as wide as the wider of
/// the two columns together and the status line, whose two labels take a
/// tenth and nine tenths of the width, and as high as the longer column and
/// the status line.
pub open spec fn screen_size(s: AppView, w: int) -> Vec2 {
    Vec2 {
        x: larger(2 * larger(0, quotient(w, 2)), quotient(w, 10) + quotient(w * 9, 10)) as i32,
        y: (status_row(s) + 1) as i32,
    }
}

/// Whether the screen of `s`, `w` columns wide, can be laid out with every
/// position in `i32`: each list and the two rows around it must fit, and so
/// must nine times the width.
pub open spec fn fits(s: AppView, w: i32) -> bool {
    &&& s.todos.items.len() + 2 <= i32::MAX
    &&& s.dones.items.len() + 2 <= i32::MAX
    &&& i32::MIN <= w * 9 <= i32::MAX
}

fn heading_of(status: Status) -> (text: &'static str)
    ensures
        text@ == heading(status),
{
    match status {
        Status::Todo => "TODO",
        Status::Done => "DONE",
    }
}

fn bullet_of(status: Status) -> (text: &'static str)
    ensures
        text@ == bullet(status),
{
    match status {
        Status::Todo => " - [ ] ",
        Status::Done => " - [x] ",
    }
}

impl App {
    /// Whether `render` may be called with `w`: no frame is open and the
    /// screen fits.
    pub fn can_render(&self, w: i32) -> (ok: bool)
        ensures
            ok == (self@.ui.layouts.len() == 0 && fits(self@, w)),
    {
        let rows: usize = 0x7fff_fffd;
        self.ui.layouts.len() == 0 && self.todos.items.len() <= rows && self.dones.items.len()
            <= rows && w.checked_mul(9).is_some()
    }

    /// Lays out one category as a column in the top frame: a heading, then
    /// the items, each `width` columns wide.
    fn render_column(&mut self, status: Status, width: i32)
        requires
            old(self)@.ui.layouts.len() > 0,
            old(self)@.ui.layouts.last().can_place(),
            old(self)@.list(status).items.len() + 1 <= i32::MAX,
            old(self)@.ui.layouts.last().next_pos().1 + old(self)@.list(status).items.len() + 1
                <= i32::MAX,
            old(self)@.ui.layouts.last().can_grow(column_size(old(self)@, status, width)),
        ensures
            final(self)@ == (AppView {
                ui: UiView {
                    quit: old(self)@.ui.quit,
                    layouts: old(self)@.ui.layouts.drop_last().push(
                        old(self)@.ui.layouts.last().grown(column_size(old(self)@, status, width)),
                    ),
                    labels: old(self)@.ui.labels + column(
                        old(self)@,
                        status,
                        old(self)@.ui.layouts.last().next_pos().0,
                        old(self)@.ui.layouts.last().next_pos().1,
                    ),
                },
                ..old(self)@
            }),
    {
        let ghost s = self@;
        let ghost x = s.ui.layouts.last().next_pos().0;
        let ghost y = s.ui.layouts.last().next_pos().1;
        let ghost all = column(s, status, x, y);
        let list = match status {
            Status::Todo => &self.todos,
            Status::Done => &self.dones,
        };
        let in_focus = self.status == status;
        self.ui.begin_layout(LayoutKind::Vert);
        self.ui.label_with_fix_width(
            heading_of(status),
            if in_focus {
                HIGHLIGHT_PAIR
            } else {
                REGULAR_PAIR
            },
            width,
        );
        let mut index: usize = 0;
        while index < list.items.len()
            invariant
                index <= list.items@.len(),
                list@ == s.list(status),
                in_focus == (s.status == status),
                self.mode == s.mode,
                self.status == s.status,
                self.cursor == s.cursor,
                self.todos@ == s.todos,
                self.dones@ == s.dones,
                self.notification@ == s.notification,
                s.list(status).items.len() + 1 <= i32::MAX,
                i32::MIN <= x <= i32::MAX,
                i32::MIN <= y,
                y + s.list(status).items.len() + 1 <= i32::MAX,
                all == column(s, status, x, y),
                self.ui@.quit == s.ui.quit,
                self.ui@.labels == s.ui.labels + all.take(index + 1),
                self.ui@.layouts == s.ui.layouts.push(
                    Layout {
                        kind: LayoutKind::Vert,
                        pos: Vec2 { x: x as i32, y: y as i32 },
                        size: Vec2 { x: larger(0, width as int) as i32, y: (index + 1) as i32 },
                    },
                ),
            decreases list.items@.len() - index,
        {
            let item = &list.items[index];
            let mut text = String::from_str(bullet_of(status));
            text.append(item.as_str());
            let pair = if in_focus && (self.mode == Mode::Normal && list.curr == index
                || self.mode == Mode::Visual && list.selected.contains(item)) {
                HIGHLIGHT_PAIR
            } else {
                REGULAR_PAIR
            };
            self.ui.label_with_fix_width(text.as_str(), pair, width);
            index += 1;
        }
        assert(all.take(index + 1) =~= all);
        self.ui.end_layout();
        assert(self.ui@.layouts =~= s.ui.layouts.drop_last().push(
            s.ui.layouts.last().grown(column_size(s, status, width)),
        ));
    }

    /// Lays out the screen of this state, `w` columns wide, leaves its
    /// labels in `ui.labels` and returns its size. No frame may be open, and
    /// none is afterwards.
    pub fn render(&mut self, w: i32) -> (size: Vec2)
        requires
            old(self)@.ui.layouts.len() == 0,
            fits(old(self)@, w),
        ensures
            size == screen_size(old(self)@, w as int),
            final(self)@ == (AppView {
                ui: UiView {
                    quit: old(self)@.ui.quit,
                    layouts: Seq::empty(),
                    labels: screen(old(self)@, w as int),
                },
                ..old(self)@
            }),
    {
        let ghost s = self@;
        self.ui.begin(LayoutKind::Vert);
        self.ui.begin_layout(LayoutKind::Horz);
        self.render_column(Status::Todo, w / 2);
        self.render_column(Status::Done, w / 2);
        self.ui.end_layout();
        self.ui.begin_layout(LayoutKind::Horz);
        let mode = self.mode.to_string();
        self.ui.label_with_fix_width(mode.as_str(), REGULAR_PAIR, w / 10);
        let mut notice = self.notification.clone();
        notice.append(" ");
        self.ui.label_with_fix_width(notice.as_str(), REGULAR_PAIR, w * 9 / 10);
        self.ui.end_layout();
        let size = self.ui.layouts[0].size;
        self.ui.end();
        assert(self.ui@.labels =~= screen(s, w as int));
        size
    }
}

} // verus!
