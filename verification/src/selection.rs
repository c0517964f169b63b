//! The set of item texts that are marked in Visual mode.

use vstd::prelude::*;

verus! {

/// The texts of a sequence of strings, one for one.
pub open spec fn texts(items: Seq<String>) -> Seq<Seq<char>> {
    Seq::new(items.len(), |i: int| items[i]@)
}

/// `selected` with `item` taken out if it is in it, and put in behind the
/// others if it is not.
pub open spec fn toggled(selected: Seq<Seq<char>>, item: Seq<char>) -> Seq<Seq<char>> {
    if selected.contains(item) {
        selected.remove(selected.index_of(item))
    } else {
        selected.push(item)
    }
}

/// Toggling a text in a selection without repetitions flips whether that
/// text is selected, leaves every other text as it was, and repeats nothing.
pub proof fn toggle_flips_one(selected: Seq<Seq<char>>, item: Seq<char>, other: Seq<char>)
    requires
        selected.no_duplicates(),
    ensures
        toggled(selected, item).contains(item) == !selected.contains(item),
        other != item ==> toggled(selected, item).contains(other) == selected.contains(other),
        toggled(selected, item).no_duplicates(),
{
    let after = toggled(selected, item);
    if selected.contains(item) {
        let at = selected.index_of(item);
        assert forall|i: int| 0 <= i < after.len() implies after[i] != item by {
            // `after[i]` is `selected[i]` before `at` and `selected[i + 1]` from there on.
        }
        if selected.contains(other) && other != item {
            let k = selected.index_of(other);
            if k > at {
                assert(after[k - 1] == other);
            }
        }
        if after.contains(other) {
            let k = after.index_of(other);
        }
    } else {
        assert(after.last() == item);
        if selected.contains(other) {
            let k = selected.index_of(other);
            assert(after[k] == other);
        }
        if after.contains(other) && other != item {
            let k = after.index_of(other);
        }
    }
}

/// A set of texts. Items are told apart by their text alone, so two items
/// with the same text are in the set together or not at all.
///
/// The set keeps its members in the order in which they came in, and hands
/// them out in that order.
pub struct Selection {
    members: Vec<String>,
}

impl View for Selection {
    type V = Seq<Seq<char>>;

    /// The members, in the order in which the set hands them out.
    closed spec fn view(&self) -> Seq<Seq<char>> {
        texts(self.members@)
    }
}

impl Selection {
    #[verifier::type_invariant]
    spec fn distinct(self) -> bool {
        texts(self.members@).no_duplicates()
    }

    /// The empty set.
    pub fn new() -> (s: Self)
        ensures
            s@ == Seq::<Seq<char>>::empty(),
    {
        let s = Selection { members: Vec::new() };
        s
    }

    pub fn len(&self) -> (n: usize)
        ensures
            n == self@.len(),
    {
        self.members.len()
    }

    pub fn is_empty(&self) -> (b: bool)
        ensures
            b == (self@.len() == 0),
    {
        self.members.len() == 0
    }

    /// The place of `item` among the members, if it is one.
    fn position(&self, item: &String) -> (at: Option<usize>)
        ensures
            match at {
                Some(i) => i < self@.len() && self@[i as int] == item@,
                None => !self@.contains(item@),
            },
    {
        let mut i: usize = 0;
        while i < self.members.len()
            invariant
                i <= self.members@.len(),
                forall|j: int| 0 <= j < i ==> texts(self.members@)[j] != item@,
            decreases self.members@.len() - i,
        {
            if self.members[i] == *item {
                return Some(i);
            }
            i += 1;
        }
        None
    }

    /// Whether `item` is in the set.
    pub fn contains(&self, item: &String) -> (b: bool)
        ensures
            b == self@.contains(item@),
    {
        self.position(item).is_some()
    }

    /// Takes `item` out if it is in the set, and puts it in if it is not.
    pub fn toggle(&mut self, item: &String)
        ensures
            final(self)@ == toggled(old(self)@, item@),
            final(self)@.no_duplicates(),
    {
        proof {
            use_type_invariant(&*self);
        }
        let at = self.position(item);
        let ghost before = self@;
        let mut taken = Selection::new();
        core::mem::swap(self, &mut taken);
        let mut members = taken.members;
        match at {
            Some(i) => {
                members.remove(i);
                assert(texts(members@) =~= before.remove(i as int));
            },
            None => {
                members.push(item.clone());
                assert(texts(members@) =~= before.push(item@));
            },
        }
        *self = Selection { members };
    }

    /// Takes every member out.
    pub fn clear(&mut self)
        ensures
            final(self)@ == Seq::<Seq<char>>::empty(),
    {
        *self = Selection::new();
    }

    /// The members, in the set's order.
    pub fn to_vec(&self) -> (v: Vec<String>)
        ensures
            texts(v@) == self@,
            texts(v@).no_duplicates(),
    {
        proof {
            use_type_invariant(self);
        }
        let mut v: Vec<String> = Vec::new();
        let mut i: usize = 0;
        while i < self.members.len()
            invariant
                i <= self.members@.len(),
                texts(v@) =~= texts(self.members@).take(i as int),
            decreases self.members@.len() - i,
        {
            let ghost before = texts(v@);
            v.push(self.members[i].clone());
            assert(texts(v@) =~= before.push(self.members@[i as int]@));
            i += 1;
        }
        v
    }
}

} // verus!
