//! Operations on a list and the cursor into it: move the cursor, drag the item
//! under it, delete it, or hand it over to another list.
//!
//! Every operation is total. A cursor that points outside the list makes it a
//! no-op, unless stated otherwise.

use vstd::prelude::*;
use vstd::arithmetic::div_mod::lemma_add_mod_noop;
use vstd::arithmetic::div_mod::lemma_mod_self_0;
use vstd::arithmetic::div_mod::lemma_small_mod;

verus! {

#[derive(Debug, Copy, Clone, PartialEq, Eq, Structural)]
pub enum Direction {
    Down,
    Up,
    First,
    Last,
}

/// Where the cursor of a list of `size` items goes from `cursor`.
///
/// `Down` steps forward and wraps to 0 behind the last item. `Up` steps back
/// and wraps from 0 to the last item. `First` and `Last` jump to the two ends.
/// With no items the cursor stays where it is.
pub open spec fn navigate(dir: Direction, size: nat, cursor: nat) -> nat {
    if size == 0 {
        cursor
    } else {
        match dir {
            Direction::Down => (cursor + 1) % size,
            Direction::Up => if cursor > 0 {
                ((cursor - 1) % (size as int)) as nat
            } else {
                (size - 1) as nat
            },
            Direction::First => 0,
            Direction::Last => (size - 1) as nat,
        }
    }
}

/// `s` with the items at `i` and `j` exchanged.
pub open spec fn swapped<T>(s: Seq<T>, i: int, j: int) -> Seq<T> {
    s.update(i, s[j]).update(j, s[i])
}

/// The list and the cursor after the item under the cursor is dragged one
/// step: the item changes places with its neighbour and the cursor follows
/// it. At the end of the list, and for `First` and `Last`, nothing moves.
pub open spec fn reorder<T>(dir: Direction, items: Seq<T>, cursor: nat) -> (Seq<T>, nat) {
    match dir {
        Direction::Down if cursor + 1 < items.len() => (
            swapped(items, cursor as int, cursor as int + 1),
            cursor + 1,
        ),
        Direction::Up if 0 < cursor < items.len() => (
            swapped(items, cursor as int, cursor - 1),
            (cursor - 1) as nat,
        ),
        _ => (items, cursor),
    }
}

/// The cursor after an item was taken out of a list that now has `size`
/// items: one that points behind the end is pulled back as `Up` would move it.
pub open spec fn settle(size: nat, cursor: nat) -> nat {
    if cursor >= size {
        navigate(Direction::Up, size, cursor)
    } else {
        cursor
    }
}

/// The list and the cursor after the item under the cursor is deleted.
pub open spec fn delete_current<T>(items: Seq<T>, cursor: nat) -> (Seq<T>, nat) {
    if cursor < items.len() {
        (items.remove(cursor as int), settle((items.len() - 1) as nat, cursor))
    } else {
        (items, cursor)
    }
}

/// The destination, the source and the source's cursor after the item under
/// the cursor moves to the end of the destination.
pub open spec fn transfer_current<T>(dst: Seq<T>, src: Seq<T>, cursor: nat) -> (
    Seq<T>,
    Seq<T>,
    nat,
) {
    if cursor < src.len() {
        (
            dst.push(src[cursor as int]),
            src.remove(cursor as int),
            settle((src.len() - 1) as nat, cursor),
        )
    } else {
        (dst, src, cursor)
    }
}

/// The list and the cursor after `times` deletions in a row.
pub open spec fn delete_repeatedly<T>(items: Seq<T>, cursor: nat, times: nat) -> (Seq<T>, nat)
    decreases times,
{
    if times == 0 {
        (items, cursor)
    } else {
        let next = delete_current(items, cursor);
        delete_repeatedly(next.0, next.1, (times - 1) as nat)
    }
}

/// Moves the cursor `index` of a list of `size` items.
pub fn go(dir: Direction, size: usize, index: &mut usize)
    ensures
        *final(index) == navigate(dir, size as nat, *old(index) as nat),
        size == 0 ==> *final(index) == *old(index),
        size > 0 && *old(index) < size ==> *final(index) < size,
{
    if size > 0 {
        match dir {
            Direction::Down => {
                proof {
                    lemma_add_mod_noop(*index as int, 1, size as int);
                    if size > 1 {
                        lemma_small_mod(1, size as nat);
                    }
                }
                // `*index + 1` may not fit in `usize`; the sum of the two
                // remainders does, and leaves the same remainder.
                *index = (*index % size + 1 % size) % size;
            },
            Direction::Last => {
                *index = size - 1;
            },
            Direction::Up => {
                if *index > 0 {
                    *index = (*index - 1) % size;
                } else {
                    *index = size - 1;
                }
            },
            Direction::First => {
                *index = 0;
            },
        }
    }
}

/// Deletes the item under the cursor.
pub fn delete(src: &mut Vec<String>, curr: &mut usize)
    ensures
        final(src)@ == delete_current(old(src)@, *old(curr) as nat).0,
        *final(curr) == delete_current(old(src)@, *old(curr) as nat).1,
        *old(curr) < old(src)@.len() ==> final(src)@.len() == old(src)@.len() - 1,
        *old(curr) < old(src)@.len() && final(src)@.len() > 0 ==> *final(curr) < final(src)@.len(),
{
    if *curr < src.len() {
        src.remove(*curr);
        if *curr >= src.len() {
            go(Direction::Up, src.len(), curr);
        }
    }
}

/// Drags the item under the cursor one step up or down.
pub fn drag(dir: Direction, src: &mut [String], curr: &mut usize)
    ensures
        final(src)@ == reorder(dir, old(src)@, *old(curr) as nat).0,
        *final(curr) == reorder(dir, old(src)@, *old(curr) as nat).1,
        dir == Direction::Down && *old(curr) + 1 == old(src)@.len() ==> final(src)@ == old(src)@
            && *final(curr) == *old(curr),
        dir == Direction::Up && *old(curr) == 0 ==> final(src)@ == old(src)@ && *final(curr)
            == *old(curr),
{
    let len = src.len();
    match dir {
        Direction::Down => {
            if *curr < len && *curr + 1 < len {
                let (head, tail) = src.split_at_mut(*curr + 1);
                core::mem::swap(&mut head[*curr], &mut tail[0]);
                *curr += 1;
            }
        },
        Direction::Up => {
            if *curr > 0 && *curr < len {
                let (head, tail) = src.split_at_mut(*curr);
                core::mem::swap(&mut head[*curr - 1], &mut tail[0]);
                *curr -= 1;
            }
        },
        _ => {},
    }
}

/// Moves the item under the cursor of `src` to the end of `dst`.
pub fn transfer(dst: &mut Vec<String>, src: &mut Vec<String>, curr: &mut usize)
    ensures
        final(dst)@ == transfer_current(old(dst)@, old(src)@, *old(curr) as nat).0,
        final(src)@ == transfer_current(old(dst)@, old(src)@, *old(curr) as nat).1,
        *final(curr) == transfer_current(old(dst)@, old(src)@, *old(curr) as nat).2,
        final(dst)@.len() + final(src)@.len() == old(dst)@.len() + old(src)@.len(),
        *old(curr) < old(src)@.len() ==> final(dst)@.last() == old(src)@[*old(curr) as int],
{
    if !src.is_empty() && *curr < src.len() {
        dst.push(src.remove(*curr));
        if *curr >= src.len() {
            go(Direction::Up, src.len(), curr);
        }
    }
}

/// In a list that has items, and from a cursor on one of them, `Down` and `Up`
/// undo each other, whichever comes first, across the wrap at the ends too.
pub proof fn down_and_up_are_inverse(size: nat, cursor: nat)
    requires
        size > 0,
        cursor < size,
    ensures
        navigate(Direction::Up, size, navigate(Direction::Down, size, cursor)) == cursor,
        navigate(Direction::Down, size, navigate(Direction::Up, size, cursor)) == cursor,
{
    let m = size as int;
    if cursor + 1 < size {
        lemma_small_mod(cursor + 1, size);
        lemma_small_mod(cursor, size);
    } else {
        assert((cursor as int + 1) % m == 0) by {
            lemma_mod_self_0(m);
        }
    }
    if cursor > 0 {
        lemma_small_mod((cursor - 1) as nat, size);
        lemma_small_mod(cursor, size);
    } else {
        assert((size - 1 + 1) % m == 0) by {
            lemma_mod_self_0(m);
        }
    }
}

/// With no items, no direction moves the cursor.
pub proof fn navigate_in_empty_list_stays(dir: Direction, cursor: nat)
    ensures
        navigate(dir, 0, cursor) == cursor,
{
}

/// A deletion with the cursor on an item makes the list one shorter and leaves
/// the cursor on an item, unless the list is now empty. So as many deletions
/// as the list has items empty it, and the cursor is on an item after each
/// of them but the last.
pub proof fn repeated_delete_empties<T>(items: Seq<T>, cursor: nat, times: nat)
    requires
        cursor < items.len(),
        times <= items.len(),
    ensures
        delete_repeatedly(items, cursor, times).0.len() == items.len() - times,
        times < items.len() ==> delete_repeatedly(items, cursor, times).1 < delete_repeatedly(
            items,
            cursor,
            times,
        ).0.len(),
        delete_repeatedly(items, cursor, items.len()).0.len() == 0,
{
    delete_run(items, cursor, times);
    delete_run(items, cursor, items.len());
}

/// After `times` deletions the list is `times` shorter, and the cursor is on
/// an item while there is one.
proof fn delete_run<T>(items: Seq<T>, cursor: nat, times: nat)
    requires
        items.len() == 0 || cursor < items.len(),
        times <= items.len(),
    ensures
        delete_repeatedly(items, cursor, times).0.len() == items.len() - times,
        times < items.len() ==> delete_repeatedly(items, cursor, times).1 < delete_repeatedly(
            items,
            cursor,
            times,
        ).0.len(),
    decreases times,
{
    if times > 0 {
        let next = delete_current(items, cursor);
        if next.0.len() > 0 && cursor >= next.0.len() {
            lemma_small_mod((cursor - 1) as nat, next.0.len());
        }
        delete_run(next.0, next.1, (times - 1) as nat);
    }
}

} // verus!
