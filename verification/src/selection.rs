use vstd::prelude::*;
use vstd::arithmetic::div_mod::{
    lemma_add_mod_noop, lemma_mod_add_multiples_vanish, lemma_mod_bound, lemma_mod_self_0,
    lemma_small_mod,
};

verus! {

/// Number of buffer elements that make up one logical item.
pub const STRIDE: usize = 3;

/// The cursor after one step forward over `count` items: the first item when
/// nothing was selected, otherwise the following item, wrapping after the last.
/// Over an empty list the cursor stays as it is.
pub open spec fn next_cursor(cursor: Option<nat>, count: nat) -> Option<nat> {
    if count == 0 {
        cursor
    } else {
        match cursor {
            None => Some(0nat),
            Some(i) => Some((i + 1) % count),
        }
    }
}

/// The cursor after one step backward over `count` items: the first item when
/// nothing was selected, otherwise the preceding item, wrapping from the first
/// to the last. Over an empty list the cursor stays as it is.
pub open spec fn previous_cursor(cursor: Option<nat>, count: nat) -> Option<nat> {
    if count == 0 {
        cursor
    } else {
        match cursor {
            None => Some(0nat),
            Some(i) => Some(((i + count - 1) % (count as int)) as nat),
        }
    }
}

/// `next_cursor` applied `steps` times.
pub open spec fn next_times(cursor: Option<nat>, count: nat, steps: nat) -> Option<nat>
    decreases steps,
{
    if steps == 0 {
        cursor
    } else {
        next_times(next_cursor(cursor, count), count, (steps - 1) as nat)
    }
}

/// `previous_cursor` applied `steps` times.
pub open spec fn previous_times(cursor: Option<nat>, count: nat, steps: nat) -> Option<nat>
    decreases steps,
{
    if steps == 0 {
        cursor
    } else {
        previous_times(previous_cursor(cursor, count), count, (steps - 1) as nat)
    }
}

/// An executable cursor as its mathematical value.
pub open spec fn cursor_of(selected: Option<usize>) -> Option<nat> {
    match selected {
        Some(i) => Some(i as nat),
        None => None,
    }
}

/// A cursor over a flat buffer in which every `STRIDE` consecutive elements
/// form one logical item. At most one logical item is selected.
pub struct StateList<T> {
    items: Vec<T>,
    selected: Option<usize>,
}

impl<T> StateList<T> {
    #[verifier::type_invariant]
    spec fn cursor_in_range(self) -> bool {
        match self.selected {
            Some(i) => i < self.items@.len() / (STRIDE as nat),
            None => true,
        }
    }

    /// The buffer, element by element.
    pub closed spec fn view(&self) -> Seq<T> {
        self.items@
    }

    /// The selected logical item, if any.
    pub closed spec fn cursor(&self) -> Option<nat> {
        cursor_of(self.selected)
    }

    /// Number of logical items: whole groups of `STRIDE` elements.
    pub open spec fn item_count(&self) -> nat {
        self@.len() / (STRIDE as nat)
    }

    /// The cursor, when set, names one of the logical items.
    pub open spec fn wf(&self) -> bool {
        match self.cursor() {
            Some(i) => i < self.item_count(),
            None => true,
        }
    }

    /// A list over `items` with nothing selected.
    pub fn with_items(items: Vec<T>) -> (list: StateList<T>)
        ensures
            list@ == items@,
            list.cursor() == None::<nat>,
            list.wf(),
    {
        StateList { items, selected: None }
    }

    /// The buffer the list was made with.
    pub fn items(&self) -> (items: &Vec<T>)
        ensures
            items@ == self@,
    {
        &self.items
    }

    /// Number of logical items.
    pub fn len(&self) -> (count: usize)
        ensures
            count == self.item_count(),
            self@.len() <= usize::MAX,
    {
        self.items.len() / STRIDE
    }

    /// The three elements of logical item `index`, in buffer order, or
    /// nothing when the list has no such item.
    pub fn item(&self, index: usize) -> (found: Option<(&T, &T, &T)>)
        ensures
            found is Some <==> index < self.item_count(),
            match found {
                Some(triple) => {
                    &&& *triple.0 == self@[STRIDE * index]
                    &&& *triple.1 == self@[STRIDE * index + 1]
                    &&& *triple.2 == self@[STRIDE * index + 2]
                },
                None => true,
            },
    {
        if index < self.items.len() / STRIDE {
            let first: usize = STRIDE * index;
            Some((&self.items[first], &self.items[first + 1], &self.items[first + 2]))
        } else {
            None
        }
    }

    /// The selected logical item, if any.
    pub fn selected(&self) -> (selected: Option<usize>)
        ensures
            cursor_of(selected) == self.cursor(),
            self.wf(),
    {
        proof {
            use_type_invariant(self);
        }
        self.selected
    }

    /// Moves the cursor one item forward, wrapping after the last item; selects
    /// the first item when nothing was selected. Does nothing on an empty list.
    pub fn next(&mut self)
        ensures
            final(self)@ == old(self)@,
            final(self).cursor() == next_cursor(old(self).cursor(), old(self).item_count()),
            final(self).wf(),
        no_unwind
    {
        proof {
            use_type_invariant(&*self);
        }
        let count: usize = self.items.len() / STRIDE;
        if count == 0 {
            return ;
        }
        let i: usize = match self.selected {
            Some(i) => {
                proof {
                    if i + 1 == count {
                        lemma_mod_self_0(count as int);
                    } else {
                        lemma_small_mod((i + 1) as nat, count as nat);
                    }
                }
                if i + 1 >= count {
                    0
                } else {
                    i + 1
                }
            },
            None => 0,
        };
        self.selected = Some(i);
    }

    /// Moves the cursor one item backward, wrapping from the first item to the
    /// last; selects the first item when nothing was selected. Does nothing on
    /// an empty list.
    pub fn previous(&mut self)
        ensures
            final(self)@ == old(self)@,
            final(self).cursor() == previous_cursor(old(self).cursor(), old(self).item_count()),
            final(self).wf(),
        no_unwind
    {
        proof {
            use_type_invariant(&*self);
        }
        let count: usize = self.items.len() / STRIDE;
        if count == 0 {
            return ;
        }
        let i: usize = match self.selected {
            Some(i) => {
                proof {
                    lemma_previous_index(i as nat, count as nat);
                }
                if i == 0 {
                    count - 1
                } else {
                    i - 1
                }
            },
            None => 0,
        };
        self.selected = Some(i);
    }

    /// Clears the selection.
    pub fn unselect(&mut self)
        ensures
            final(self)@ == old(self)@,
            final(self).cursor() == None::<nat>,
            final(self).wf(),
        no_unwind
    {
        self.selected = None;
    }
}

/// Stepping back from item `i` of `count` lands on the last item when `i` is
/// the first, and on `i - 1` otherwise.
pub proof fn lemma_previous_index(i: nat, count: nat)
    requires
        i < count,
    ensures
        (i + count - 1) % (count as int) == if i == 0 {
            count - 1
        } else {
            i - 1
        },
{
    if i == 0 {
        lemma_small_mod((count - 1) as nat, count);
    } else {
        lemma_add_mod_noop((i - 1) as int, count as int, count as int);
        lemma_mod_self_0(count as int);
        lemma_small_mod((i - 1) as nat, count);
    }
}

/// Stepping forward from a selected item `i` of `count` lands on a selected
/// item of the list again.
pub proof fn lemma_next_in_range(i: nat, count: nat)
    requires
        i < count,
    ensures
        next_cursor(Some(i), count) is Some,
        next_cursor(Some(i), count).unwrap() < count,
        next_cursor(Some(i), count) == Some(
            if i + 1 == count {
                0nat
            } else {
                i + 1
            },
        ),
{
    if i + 1 == count {
        lemma_mod_self_0(count as int);
    } else {
        lemma_small_mod(i + 1, count);
    }
}

/// From a selected item `i` of `count`, `steps` steps forward land on item
/// `(i + steps) mod count`.
pub proof fn lemma_next_times(i: nat, count: nat, steps: nat)
    requires
        i < count,
    ensures
        next_times(Some(i), count, steps) == Some((i + steps) % count),
    decreases steps,
{
    if steps == 0 {
        lemma_small_mod(i, count);
    } else {
        let j = (i + 1) % count;
        lemma_mod_bound((i + 1) as int, count as int);
        lemma_next_times(j, count, (steps - 1) as nat);
        lemma_add_mod_noop((i + 1) as int, steps - 1, count as int);
        lemma_add_mod_noop(j as int, steps - 1, count as int);
        lemma_small_mod(j, count);
    }
}

/// Cycle closure forward: from any selected item, as many steps forward as
/// there are items lead back to that item.
pub proof fn lemma_next_cycle(i: nat, count: nat)
    requires
        i < count,
    ensures
        next_times(Some(i), count, count) == Some(i),
{
    lemma_next_times(i, count, count);
    lemma_mod_add_multiples_vanish(i as int, count as int);
    lemma_small_mod(i, count);
}

/// Starting with nothing selected over a non-empty list, the first step
/// forward selects item 0 and step number `steps` selects item
/// `(steps - 1) mod count`: `count` steps end on the last item, and one more
/// step returns to item 0.
pub proof fn lemma_next_from_unselected(count: nat, steps: nat)
    requires
        count > 0,
        steps > 0,
    ensures
        next_times(None, count, steps) == Some(((steps - 1) % (count as int)) as nat),
        next_times(None, count, 1) == Some(0nat),
        next_times(None, count, count) == Some((count - 1) as nat),
        next_times(None, count, count + 1) == Some(0nat),
{
    lemma_next_times(0, count, (steps - 1) as nat);
    lemma_next_times(0, count, 0);
    lemma_next_times(0, count, (count - 1) as nat);
    lemma_next_cycle(0, count);
    lemma_small_mod(0, count);
    lemma_small_mod((count - 1) as nat, count);
    assert(next_times(None, count, 1) == next_times(Some(0nat), count, 0));
    assert(next_times(None, count, count) == next_times(Some(0nat), count, (count - 1) as nat));
    assert(next_times(None, count, count + 1) == next_times(Some(0nat), count, count));
}

/// Round trip: a step forward followed by a step backward leaves a selected
/// item selected, and so does a step backward followed by a step forward.
pub proof fn lemma_next_previous_round_trip(i: nat, count: nat)
    requires
        i < count,
    ensures
        previous_cursor(next_cursor(Some(i), count), count) == Some(i),
        next_cursor(previous_cursor(Some(i), count), count) == Some(i),
{
    lemma_next_in_range(i, count);
    lemma_previous_index(i, count);
    if i + 1 == count {
        lemma_previous_index(0, count);
    } else {
        lemma_previous_index(i + 1, count);
    }
    if i == 0 {
        lemma_next_in_range((count - 1) as nat, count);
    } else {
        lemma_next_in_range((i - 1) as nat, count);
    }
}

/// The last of `steps + 1` steps backward may be taken apart from the first
/// `steps`.
pub proof fn lemma_previous_times_last(cursor: Option<nat>, count: nat, steps: nat)
    ensures
        previous_times(cursor, count, steps + 1) == previous_cursor(
            previous_times(cursor, count, steps),
            count,
        ),
    decreases steps,
{
    if steps == 0 {
        assert(previous_times(previous_cursor(cursor, count), count, 0) == previous_cursor(
            cursor,
            count,
        ));
    } else {
        lemma_previous_times_last(previous_cursor(cursor, count), count, (steps - 1) as nat);
    }
}

/// Any number of steps forward from a selected item followed by as many
/// steps backward lead back to that item.
pub proof fn lemma_previous_times_undoes_next_times(i: nat, count: nat, steps: nat)
    requires
        i < count,
    ensures
        previous_times(next_times(Some(i), count, steps), count, steps) == Some(i),
    decreases steps,
{
    if steps > 0 {
        lemma_next_in_range(i, count);
        let j = next_cursor(Some(i), count).unwrap();
        let far = next_times(Some(j), count, (steps - 1) as nat);
        lemma_previous_times_undoes_next_times(j, count, (steps - 1) as nat);
        lemma_previous_times_last(far, count, (steps - 1) as nat);
        lemma_next_previous_round_trip(i, count);
    }
}

/// Cycle closure backward: from any selected item, as many steps backward as
/// there are items lead back to that item.
pub proof fn lemma_previous_cycle(i: nat, count: nat)
    requires
        i < count,
    ensures
        previous_times(Some(i), count, count) == Some(i),
{
    lemma_next_cycle(i, count);
    lemma_previous_times_undoes_next_times(i, count, count);
}

/// Starting with nothing selected over a non-empty list, the first step
/// backward selects item 0, and `count` further steps backward return to it.
pub proof fn lemma_previous_from_unselected(count: nat)
    requires
        count > 0,
    ensures
        previous_times(None, count, 1) == Some(0nat),
        previous_times(None, count, count + 1) == Some(0nat),
{
    lemma_previous_cycle(0, count);
    assert(previous_times(None, count, 1) == previous_times(Some(0nat), count, 0));
    assert(previous_times(None, count, count + 1) == previous_times(Some(0nat), count, count));
}

} // verus!
