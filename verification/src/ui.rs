//! The layout pass of one screen: a stack of nested frames, and the labels
//! that were placed in them.
//!
//! Nothing is drawn here. Each label is recorded with the position that the
//! frame on top of the stack gave it, for the caller to draw.

use vstd::prelude::*;
use crate::layout::{Layout, LayoutKind};
use crate::vec2::Vec2;

verus! {

/// A text to draw at a position, with a colour pair.
#[derive(Debug)]
pub struct Label {
    pub pos: Vec2,
    pub text: String,
    pub pair: i16,
    /// The attribute that switches the colour pair on and off.
    pub attr: u32,
}

/// A label with its text as a sequence of characters.
pub struct LabelView {
    pub pos: Vec2,
    pub text: Seq<char>,
    pub pair: i16,
    pub attr: u32,
}

impl View for Label {
    type V = LabelView;

    open spec fn view(&self) -> LabelView {
        LabelView { pos: self.pos, text: self.text@, pair: self.pair, attr: self.attr }
    }
}

/// The attribute of colour pair `pair`: the pair's number, widened to 32
/// bits with its sign, in the bits above the lowest eight.
pub open spec fn pair_attr(pair: i16) -> u32 {
    if pair >= 0 {
        (pair * 256) as u32
    } else {
        (0x1_0000_0000 + pair * 256) as u32
    }
}

/// The label of `text` at `pos` in colour pair `pair`.
pub open spec fn label_at(pos: Vec2, text: Seq<char>, pair: i16) -> LabelView {
    LabelView { pos, text, pair, attr: pair_attr(pair) }
}

/// ncurses' `COLOR_PAIR`: it casts the pair's number to `u32` and shifts it
/// left by eight bits, dropping what leaves the 32 bits.
#[verifier::external_body]
fn color_pair(pair: i16) -> (attr: u32)
    ensures
        attr == pair_attr(pair),
{
    ncurses::COLOR_PAIR(pair) as u32
}

/// The views of a sequence of labels, one for one.
pub open spec fn label_views(labels: Seq<Label>) -> Seq<LabelView> {
    Seq::new(labels.len(), |i: int| labels[i]@)
}

/// The state of a layout pass, and the flag that ends the program.
pub struct Ui {
    pub quit: bool,
    /// The open frames, the outermost first.
    pub layouts: Vec<Layout>,
    /// The labels placed since the pass began, in the order of placing.
    pub labels: Vec<Label>,
}

/// The state of a layout pass with its frames and labels as sequences.
pub struct UiView {
    pub quit: bool,
    pub layouts: Seq<Layout>,
    pub labels: Seq<LabelView>,
}

impl View for Ui {
    type V = UiView;

    open spec fn view(&self) -> UiView {
        UiView { quit: self.quit, layouts: self.layouts@, labels: label_views(self.labels@) }
    }
}

impl UiView {
    /// A pass has begun: one empty frame at the origin, and no labels.
    pub open spec fn begun(self, kind: LayoutKind) -> UiView {
        UiView {
            quit: self.quit,
            layouts: seq![Layout { kind, pos: Vec2 { x: 0, y: 0 }, size: Vec2 { x: 0, y: 0 } }],
            labels: Seq::empty(),
        }
    }

    /// A frame was opened inside the top one, where the top one has room.
    pub open spec fn nested(self, kind: LayoutKind) -> UiView {
        let top = self.layouts.last();
        UiView {
            layouts: self.layouts.push(
                Layout {
                    kind,
                    pos: Vec2 { x: top.next_pos().0 as i32, y: top.next_pos().1 as i32 },
                    size: Vec2 { x: 0, y: 0 },
                },
            ),
            ..self
        }
    }

    /// The top frame was closed, and the frame below took it as a widget of
    /// the size it had grown to.
    pub open spec fn folded(self) -> UiView {
        let top = self.layouts.last();
        let below = self.layouts.drop_last();
        UiView { layouts: below.drop_last().push(below.last().grown(top.size)), ..self }
    }

    /// The outermost frame was closed.
    pub open spec fn ended(self) -> UiView {
        UiView { layouts: Seq::empty(), ..self }
    }

    /// A label of `width` columns and one row was placed in the top frame.
    pub open spec fn labelled(self, text: Seq<char>, pair: i16, width: i32) -> UiView {
        let top = self.layouts.last();
        UiView {
            layouts: self.layouts.drop_last().push(top.grown(Vec2 { x: width, y: 1 })),
            labels: self.labels.push(
                label_at(
                    Vec2 { x: top.next_pos().0 as i32, y: top.next_pos().1 as i32 },
                    text,
                    pair,
                ),
            ),
            ..self
        }
    }
}

impl Ui {
    /// No frame is open, no label is placed, and the program goes on.
    pub fn new() -> (ui: Self)
        ensures
            ui@ == (UiView { quit: false, layouts: Seq::empty(), labels: Seq::empty() }),
    {
        let ui = Ui { quit: false, layouts: Vec::new(), labels: Vec::new() };
        assert(ui@.labels =~= Seq::empty());
        ui
    }

    /// Whether the quit flag is set.
    pub fn should_quit(&self) -> (quit: bool)
        ensures
            quit == self@.quit,
    {
        self.quit
    }

    /// Flips the quit flag: a second call takes the first one back.
    pub fn do_quit(&mut self)
        ensures
            final(self)@ == (UiView { quit: !old(self)@.quit, ..old(self)@ }),
    {
        self.quit = !self.quit;
    }

    /// Places a label in the top frame. The frame gives it its next position
    /// and grows by `width` columns and one row.
    pub fn label_with_fix_width(&mut self, text: &str, pair: i16, width: i32)
        requires
            old(self)@.layouts.len() > 0,
            old(self)@.layouts.last().can_place(),
            old(self)@.layouts.last().can_grow(Vec2 { x: width, y: 1 }),
        ensures
            final(self)@ == old(self)@.labelled(text@, pair, width),
    {
        let top = self.layouts.len() - 1;
        let ghost before = label_views(self.labels@);
        let new_pos = self.layouts[top].available_pos();
        self.labels.push(Label { pos: new_pos, text: text.to_owned(), pair, attr: color_pair(pair) });
        self.layouts[top].add_widget(Vec2::new(width, 1));
        assert(label_views(self.labels@) =~= before.push(label_at(new_pos, text@, pair)));
        assert(self.layouts@ =~= old(self).layouts@.drop_last().push(
            old(self).layouts@.last().grown(Vec2 { x: width, y: 1 }),
        ));
    }

    /// Begins a pass: opens the outermost frame at the origin and forgets the
    /// labels of the pass before. No frame may be open.
    pub fn begin(&mut self, kind: LayoutKind)
        requires
            old(self)@.layouts.len() == 0,
        ensures
            final(self)@ == old(self)@.begun(kind),
    {
        self.labels.clear();
        self.layouts.push(Layout::new(kind, Vec2::zero()));
        assert(label_views(self.labels@) =~= Seq::empty());
        assert(self.layouts@ =~= old(self)@.begun(kind).layouts);
    }

    /// Ends the pass: closes the outermost frame, which must be the only one
    /// that is open.
    pub fn end(&mut self)
        requires
            old(self)@.layouts.len() == 1,
        ensures
            final(self)@ == old(self)@.ended(),
    {
        self.layouts.pop();
        assert(self.layouts@ =~= Seq::empty());
    }

    /// Opens a frame inside the top one, at the top one's next position.
    pub fn begin_layout(&mut self, kind: LayoutKind)
        requires
            old(self)@.layouts.len() > 0,
            old(self)@.layouts.last().can_place(),
        ensures
            final(self)@ == old(self)@.nested(kind),
    {
        let top = self.layouts.len() - 1;
        let pos = self.layouts[top].available_pos();
        self.layouts.push(Layout::new(kind, pos));
    }

    /// Closes the top frame and adds its size, as one widget, to the frame
    /// below it, which must exist.
    pub fn end_layout(&mut self)
        requires
            old(self)@.layouts.len() >= 2,
            old(self)@.layouts[old(self)@.layouts.len() - 2].can_grow(old(self)@.layouts.last().size),
        ensures
            final(self)@ == old(self)@.folded(),
    {
        let closed = self.layouts.pop().unwrap();
        let top = self.layouts.len() - 1;
        self.layouts[top].add_widget(closed.size);
        assert(self.layouts@ =~= old(self)@.folded().layouts);
    }
}

} // verus!
