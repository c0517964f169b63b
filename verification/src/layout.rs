//! One frame of the immediate-mode layout: a row or a column that widgets are
//! added to, one after the other.

use vstd::prelude::*;
use crate::vec2::Vec2;

verus! {

/// The direction in which a frame lines up its widgets.
#[derive(Debug, Copy, Clone, PartialEq, Eq, Structural)]
pub enum LayoutKind {
    /// Left to right, in one row.
    Horz,
    /// Top to bottom, in one column.
    Vert,
}

/// A region that starts at `pos` and has grown to `size` by the widgets added
/// so far.
#[derive(Debug, Copy, Clone, PartialEq, Eq, Structural)]
pub struct Layout {
    pub kind: LayoutKind,
    pub pos: Vec2,
    pub size: Vec2,
}

/// The larger of two integers.
pub open spec fn larger(a: int, b: int) -> int {
    if a >= b {
        a
    } else {
        b
    }
}

impl Layout {
    /// Where the next widget goes, as unbounded integers `(x, y)`: behind the
    /// widgets so far along the frame's direction, at the frame's origin
    /// across it.
    pub open spec fn next_pos(self) -> (int, int) {
        match self.kind {
            LayoutKind::Horz => (self.pos.x + self.size.x, self.pos.y as int),
            LayoutKind::Vert => (self.pos.x as int, self.pos.y + self.size.y),
        }
    }

    /// The size after a widget of `size` is added, as unbounded integers
    /// `(x, y)`: the sum along the frame's direction, the larger of the two
    /// across it.
    pub open spec fn next_size(self, size: Vec2) -> (int, int) {
        match self.kind {
            LayoutKind::Horz => (self.size.x + size.x, larger(self.size.y as int, size.y as int)),
            LayoutKind::Vert => (larger(self.size.x as int, size.x as int), self.size.y + size.y),
        }
    }

    /// Whether the position of the next widget fits in `i32`.
    pub open spec fn can_place(self) -> bool {
        &&& i32::MIN <= self.next_pos().0 <= i32::MAX
        &&& i32::MIN <= self.next_pos().1 <= i32::MAX
    }

    /// Whether the frame can take a widget of `size` and keep its own size in
    /// `i32`.
    pub open spec fn can_grow(self, size: Vec2) -> bool {
        &&& i32::MIN <= self.next_size(size).0 <= i32::MAX
        &&& i32::MIN <= self.next_size(size).1 <= i32::MAX
    }

    /// The frame after a widget of `size` is added.
    pub open spec fn grown(self, size: Vec2) -> Layout {
        Layout {
            kind: self.kind,
            pos: self.pos,
            size: Vec2 { x: self.next_size(size).0 as i32, y: self.next_size(size).1 as i32 },
        }
    }

    /// An empty frame at `pos`.
    pub fn new(kind: LayoutKind, pos: Vec2) -> (layout: Self)
        ensures
            layout == (Layout { kind, pos, size: Vec2 { x: 0, y: 0 } }),
    {
        Layout { kind, pos, size: Vec2::zero() }
    }

    /// The position that the next widget, or the next nested frame, receives.
    pub fn available_pos(&self) -> (p: Vec2)
        requires
            self.can_place(),
        ensures
            p.x == self.next_pos().0,
            p.y == self.next_pos().1,
    {
        match self.kind {
            LayoutKind::Horz => self.pos + self.size * Vec2::new(1, 0),
            LayoutKind::Vert => self.pos + self.size * Vec2::new(0, 1),
        }
    }

    /// Adds a widget of `size` behind the ones that are there.
    pub fn add_widget(&mut self, size: Vec2)
        requires
            old(self).can_grow(size),
        ensures
            *final(self) == old(self).grown(size),
            final(self).size.x == old(self).next_size(size).0,
            final(self).size.y == old(self).next_size(size).1,
    {
        match self.kind {
            LayoutKind::Horz => {
                self.size.x += size.x;
                self.size.y = if self.size.y >= size.y { self.size.y } else { size.y };
            },
            LayoutKind::Vert => {
                self.size.x = if self.size.x >= size.x { self.size.x } else { size.x };
                self.size.y += size.y;
            },
        }
    }
}

} // verus!
