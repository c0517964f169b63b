//! One category of items: the list, the cursor into it, and the selection
//! made in Visual mode.

use vstd::prelude::*;
use crate::action::{
    delete, delete_current, drag, go, navigate, reorder, swapped, transfer, transfer_current,
    Direction,
};
use crate::edit::{
    backspace, char_count, delete_forward, erased_back, erased_forward, move_right, stepped_right,
    type_char, typed,
};
use crate::selection::{texts, toggled, Selection};

verus! {

/// A list of items with the place of the cursor and the texts selected in it.
///
/// The cursor is on an item if it is below the number of items. It is not
/// kept there by force: a list can lose the item under its cursor, and the
/// operations say what they do then.
pub struct Category {
    pub items: Vec<String>,
    pub curr: usize,
    pub selected: Selection,
}

/// A category with its items as texts.
pub struct CategoryView {
    pub items: Seq<Seq<char>>,
    pub curr: nat,
    /// The selected texts, in the order in which the selection hands them
    /// out.
    pub selected: Seq<Seq<char>>,
}

impl View for Category {
    type V = CategoryView;

    open spec fn view(&self) -> CategoryView {
        CategoryView {
            items: texts(self.items@),
            curr: self.curr as nat,
            selected: self.selected@,
        }
    }
}

/// The items whose text is not selected, in their order.
pub open spec fn unselected(items: Seq<Seq<char>>, selected: Seq<Seq<char>>) -> Seq<Seq<char>> {
    items.filter(|t: Seq<char>| !selected.contains(t))
}

impl CategoryView {
    /// Whether the cursor is on an item.
    pub open spec fn on_item(self) -> bool {
        self.curr < self.items.len()
    }

    /// The length of the text under the cursor, and 0 where there is none.
    pub open spec fn current_len(self) -> nat {
        if self.on_item() {
            self.items[self.curr as int].len()
        } else {
            0
        }
    }

    /// The cursor has moved.
    pub open spec fn moved(self, dir: Direction) -> CategoryView {
        CategoryView { curr: navigate(dir, self.items.len(), self.curr), ..self }
    }

    /// The item under the cursor was dragged one step.
    pub open spec fn dragged(self, dir: Direction) -> CategoryView {
        CategoryView {
            items: reorder(dir, self.items, self.curr).0,
            curr: reorder(dir, self.items, self.curr).1,
            ..self
        }
    }

    /// The item under the cursor was deleted.
    pub open spec fn deleted(self) -> CategoryView {
        CategoryView {
            items: delete_current(self.items, self.curr).0,
            curr: delete_current(self.items, self.curr).1,
            ..self
        }
    }

    /// The item under the cursor has left for the end of another list.
    pub open spec fn given(self, to: CategoryView) -> CategoryView {
        CategoryView {
            items: transfer_current(to.items, self.items, self.curr).1,
            curr: transfer_current(to.items, self.items, self.curr).2,
            ..self
        }
    }

    /// The item under the cursor of `from` has arrived at the end.
    pub open spec fn taken(self, from: CategoryView) -> CategoryView {
        CategoryView { items: transfer_current(self.items, from.items, from.curr).0, ..self }
    }

    /// Where a new item below the cursor goes: behind the item under the
    /// cursor, and at the end where the cursor is on none.
    pub open spec fn place_below(self) -> nat {
        if self.on_item() {
            self.curr + 1
        } else {
            self.items.len()
        }
    }

    /// Where a new item above the cursor goes: before the item under the
    /// cursor, and at the end where the cursor is on none.
    pub open spec fn place_above(self) -> nat {
        if self.on_item() {
            self.curr
        } else {
            self.items.len()
        }
    }

    /// An empty item was put in at `at`, and the cursor is on it.
    pub open spec fn opened(self, at: nat) -> CategoryView {
        CategoryView { items: self.items.insert(at as int, Seq::empty()), curr: at, ..self }
    }

    /// The text under the cursor was marked or unmarked, and the cursor has
    /// moved on. With the cursor on no item nothing happens.
    pub open spec fn marked(self, dir: Direction) -> CategoryView {
        if self.on_item() {
            CategoryView {
                selected: toggled(self.selected, self.items[self.curr as int]),
                ..self.moved(dir)
            }
        } else {
            self
        }
    }

    /// Nothing is selected any more.
    pub open spec fn unmarked(self) -> CategoryView {
        CategoryView { selected: Seq::empty(), ..self }
    }

    /// Every item with a selected text is gone, and nothing is selected any
    /// more. The cursor stays as it is.
    pub open spec fn purged(self) -> CategoryView {
        CategoryView {
            items: unselected(self.items, self.selected),
            curr: self.curr,
            selected: Seq::empty(),
        }
    }

    /// The selected texts of `from` have arrived at the end, in the order of
    /// the selection.
    pub open spec fn extended(self, from: CategoryView) -> CategoryView {
        CategoryView { items: self.items + from.selected, ..self }
    }

    /// The text under the cursor was replaced.
    pub open spec fn replaced(self, text: Seq<char>) -> CategoryView {
        if self.on_item() {
            CategoryView { items: self.items.update(self.curr as int, text), ..self }
        } else {
            self
        }
    }

    /// The text under the cursor.
    pub open spec fn current(self) -> Seq<char>
        recommends
            self.on_item(),
    {
        self.items[self.curr as int]
    }

    /// The category and the text cursor after `ch` is typed into the text
    /// under the cursor. With the cursor on no item nothing happens.
    pub open spec fn typed(self, cursor: nat, ch: char) -> (CategoryView, nat) {
        if self.on_item() {
            (
                self.replaced(typed(self.current(), cursor, ch).0),
                typed(self.current(), cursor, ch).1,
            )
        } else {
            (self, cursor)
        }
    }

    /// The category and the text cursor after a backspace in the text under
    /// the cursor. With the cursor on no item nothing happens.
    pub open spec fn erased_back(self, cursor: nat) -> (CategoryView, nat) {
        if self.on_item() {
            (
                self.replaced(erased_back(self.current(), cursor).0),
                erased_back(self.current(), cursor).1,
            )
        } else {
            (self, cursor)
        }
    }

    /// The category after a forward delete in the text under the cursor.
    /// With the cursor on no item nothing happens.
    pub open spec fn erased_forward(self, cursor: nat) -> CategoryView {
        if self.on_item() {
            self.replaced(erased_forward(self.current(), cursor))
        } else {
            self
        }
    }
}

impl Category {
    /// A category of `items` with the cursor on the first of them and
    /// nothing selected.
    pub fn new(items: Vec<String>) -> (c: Self)
        ensures
            c@ == (CategoryView { items: texts(items@), curr: 0, selected: Seq::empty() }),
    {
        Category { items, curr: 0, selected: Selection::new() }
    }

    /// The number of characters of the text under the cursor, and 0 where
    /// the cursor is on no item.
    pub fn current_len(&self) -> (n: usize)
        ensures
            n == self@.current_len(),
    {
        if self.curr < self.items.len() {
            char_count(&self.items[self.curr])
        } else {
            0
        }
    }

    /// Moves the cursor.
    pub fn go(&mut self, dir: Direction)
        ensures
            final(self)@ == old(self)@.moved(dir),
    {
        go(dir, self.items.len(), &mut self.curr);
    }

    /// Drags the item under the cursor one step.
    pub fn drag(&mut self, dir: Direction)
        ensures
            final(self)@ == old(self)@.dragged(dir),
    {
        let ghost before = self.items@;
        let ghost cursor = self.curr as nat;
        drag(dir, self.items.as_mut_slice(), &mut self.curr);
        proof {
            let i = cursor as int;
            if cursor + 1 < before.len() {
                assert(texts(swapped(before, i, i + 1)) =~= swapped(texts(before), i, i + 1));
            }
            if 0 < cursor < before.len() {
                assert(texts(swapped(before, i, i - 1)) =~= swapped(texts(before), i, i - 1));
            }
        }
    }

    /// Deletes the item under the cursor.
    pub fn delete(&mut self)
        ensures
            final(self)@ == old(self)@.deleted(),
    {
        let ghost before = self.items@;
        delete(&mut self.items, &mut self.curr);
        proof {
            if old(self).curr < before.len() {
                assert(texts(before.remove(old(self).curr as int)) =~= texts(before).remove(
                    old(self).curr as int,
                ));
            }
        }
    }

    /// Moves the item under the cursor to the end of `to`.
    pub fn transfer_to(&mut self, to: &mut Category)
        ensures
            final(self)@ == old(self)@.given(old(to)@),
            final(to)@ == old(to)@.taken(old(self)@),
    {
        let ghost src = self.items@;
        let ghost dst = to.items@;
        transfer(&mut to.items, &mut self.items, &mut self.curr);
        proof {
            let i = old(self).curr as int;
            if i < src.len() {
                assert(texts(src.remove(i)) =~= texts(src).remove(i));
                assert(texts(dst.push(src[i])) =~= texts(dst).push(texts(src)[i]));
            }
        }
    }

    /// Puts an empty item in below the cursor and moves the cursor onto it.
    pub fn open_below(&mut self)
        ensures
            final(self)@ == old(self)@.opened(old(self)@.place_below()),
    {
        let at = if self.curr < self.items.len() {
            self.curr + 1
        } else {
            self.items.len()
        };
        self.open_at(at);
    }

    /// Puts an empty item in above the cursor and moves the cursor onto it.
    pub fn open_above(&mut self)
        ensures
            final(self)@ == old(self)@.opened(old(self)@.place_above()),
    {
        let at = if self.curr < self.items.len() {
            self.curr
        } else {
            self.items.len()
        };
        self.open_at(at);
    }

    fn open_at(&mut self, at: usize)
        requires
            at <= old(self).items@.len(),
        ensures
            final(self)@ == old(self)@.opened(at as nat),
    {
        let ghost before = self.items@;
        let blank = String::new();
        self.items.insert(at, blank);
        self.curr = at;
        assert(texts(self.items@) =~= texts(before).insert(at as int, Seq::empty()));
    }

    /// Marks or unmarks the text under the cursor and moves the cursor on.
    pub fn mark(&mut self, dir: Direction)
        ensures
            final(self)@ == old(self)@.marked(dir),
    {
        if self.curr < self.items.len() {
            self.selected.toggle(&self.items[self.curr]);
            go(dir, self.items.len(), &mut self.curr);
        }
    }

    /// Empties the selection.
    pub fn unmark(&mut self)
        ensures
            final(self)@ == old(self)@.unmarked(),
    {
        self.selected.clear();
    }

    /// Removes every item whose text is selected, and empties the selection.
    pub fn purge(&mut self)
        ensures
            final(self)@ == old(self)@.purged(),
    {
        let ghost all = texts(self.items@);
        let ghost marks = self.selected@;
        let mut kept: Vec<String> = Vec::new();
        let mut i: usize = 0;
        assert(texts(kept@) =~= unselected(all.take(0), marks)) by {
            reveal(Seq::filter);
        }
        while i < self.items.len()
            invariant
                i <= self.items@.len(),
                all == texts(self.items@),
                marks == self.selected@,
                texts(kept@) == unselected(all.take(i as int), marks),
            decreases self.items@.len() - i,
        {
            if !self.selected.contains(&self.items[i]) {
                kept.push(self.items[i].clone());
            }
            proof {
                reveal(Seq::filter);
                assert(all.take(i + 1).drop_last() =~= all.take(i as int));
            }
            i += 1;
        }
        assert(all.take(i as int) =~= all);
        self.items = kept;
        self.selected.clear();
    }

    /// Appends the selected texts of `from`, in the order of its selection.
    pub fn extend_from(&mut self, from: &Category)
        ensures
            final(self)@ == old(self)@.extended(from@),
    {
        let arriving = from.selected.to_vec();
        let ghost before = texts(self.items@);
        let mut i: usize = 0;
        while i < arriving.len()
            invariant
                i <= arriving@.len(),
                self.curr == old(self).curr,
                self.selected == old(self).selected,
                texts(self.items@) =~= before + texts(arriving@).take(i as int),
            decreases arriving@.len() - i,
        {
            let ghost so_far = texts(self.items@);
            self.items.push(arriving[i].clone());
            assert(texts(self.items@) =~= so_far.push(texts(arriving@)[i as int]));
            i += 1;
        }
        assert(texts(arriving@).take(i as int) =~= texts(arriving@));
    }

    /// Types `ch` into the text under the cursor, at the text cursor.
    pub fn type_char(&mut self, cursor: &mut usize, ch: char)
        ensures
            final(self)@ == old(self)@.typed(*old(cursor) as nat, ch).0,
            *final(cursor) == old(self)@.typed(*old(cursor) as nat, ch).1,
    {
        if self.curr < self.items.len() {
            let ghost before = self.items@;
            type_char(&mut self.items[self.curr], cursor, ch);
            assert(texts(self.items@) =~= texts(before).update(
                self.curr as int,
                self.items@[self.curr as int]@,
            ));
        }
    }

    /// Removes the character before the text cursor from the text under the
    /// cursor.
    pub fn backspace(&mut self, cursor: &mut usize)
        ensures
            final(self)@ == old(self)@.erased_back(*old(cursor) as nat).0,
            *final(cursor) == old(self)@.erased_back(*old(cursor) as nat).1,
    {
        if self.curr < self.items.len() {
            let ghost before = self.items@;
            backspace(&mut self.items[self.curr], cursor);
            assert(texts(self.items@) =~= texts(before).update(
                self.curr as int,
                self.items@[self.curr as int]@,
            ));
        }
    }

    /// Removes the character at the text cursor from the text under the
    /// cursor.
    pub fn delete_forward(&mut self, cursor: usize)
        ensures
            final(self)@ == old(self)@.erased_forward(cursor as nat),
    {
        if self.curr < self.items.len() {
            let ghost before = self.items@;
            delete_forward(&mut self.items[self.curr], cursor);
            assert(texts(self.items@) =~= texts(before).update(
                self.curr as int,
                self.items@[self.curr as int]@,
            ));
        }
    }

    /// Moves the text cursor one character to the right in the text under
    /// the cursor.
    pub fn move_right(&self, cursor: &mut usize)
        ensures
            *final(cursor) == stepped_right(self@.current_len(), *old(cursor) as nat),
    {
        move_right(self.current_len(), cursor);
    }
}

} // verus!
