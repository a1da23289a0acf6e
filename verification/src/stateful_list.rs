//! A list of items of which at most one is selected, with cyclic
//! navigation.

use vstd::arithmetic::div_mod::{
    lemma_add_mod_noop_right, lemma_mod_multiples_vanish, lemma_mod_pos_bound, lemma_mod_self_0,
    lemma_small_mod,
};
use vstd::prelude::*;

verus! {

/// One navigation step.
pub enum Step {
    Next,
    Previous,
}

/// The selection after moving forward from `selected` in a list of `len`
/// items: the first item if none was selected or the last one was, the
/// following item otherwise. An empty list has no selection.
pub open spec fn next_selection(selected: Option<nat>, len: nat) -> Option<nat> {
    if len == 0 {
        None
    } else {
        match selected {
            Some(i) => if i + 1 >= len {
                Some(0)
            } else {
                Some(i + 1)
            },
            None => Some(0),
        }
    }
}

/// The selection after moving backward from `selected` in a list of `len`
/// items: the first item if none was selected, the last item if the first
/// one was, the preceding item otherwise. An empty list has no selection.
pub open spec fn previous_selection(selected: Option<nat>, len: nat) -> Option<nat> {
    if len == 0 {
        None
    } else {
        match selected {
            Some(i) => if i == 0 {
                Some((len - 1) as nat)
            } else {
                Some((i - 1) as nat)
            },
            None => Some(0),
        }
    }
}

/// Whether `selected` is a legal selection in a list of `len` items.
pub open spec fn selection_in_range(selected: Option<nat>, len: nat) -> bool {
    selected matches Some(i) ==> i < len
}

/// The selection after taking `steps` in order, starting from `selected`.
pub open spec fn navigate(selected: Option<nat>, len: nat, steps: Seq<Step>) -> Option<nat>
    decreases steps.len(),
{
    if steps.len() == 0 {
        selected
    } else {
        let before = navigate(selected, len, steps.drop_last());
        match steps.last() {
            Step::Next => next_selection(before, len),
            Step::Previous => previous_selection(before, len),
        }
    }
}

/// A selected index as a natural number.
pub open spec fn selection_view(selected: Option<usize>) -> Option<nat> {
    match selected {
        Some(i) => Some(i as nat),
        None => None,
    }
}

/// An ordered list together with the index of the selected item, if any.
pub struct StatefulList<T> {
    pub selected: Option<usize>,
    pub items: Vec<T>,
}

impl<T> StatefulList<T> {
    /// The selected index, if there is one.
    pub open spec fn selection(&self) -> Option<nat> {
        selection_view(self.selected)
    }

    /// The selected index, if there is one, is the index of an item.
    pub open spec fn wf(&self) -> bool {
        selection_in_range(self.selection(), self.items@.len())
    }

    /// Decides `wf`.
    pub fn is_well_formed(&self) -> (ok: bool)
        ensures
            ok == self.wf(),
    {
        match self.selected {
            Some(i) => i < self.items.len(),
            None => true,
        }
    }

    /// A list of `items` with nothing selected.
    pub fn with_items(items: Vec<T>) -> (list: Self)
        ensures
            list.items == items,
            list.selected is None,
            list.wf(),
    {
        Self { selected: None, items }
    }

    /// Moves the selection one item forward, wrapping from the last item to
    /// the first.
    pub fn next(&mut self)
        requires
            old(self).wf(),
        ensures
            final(self).items == old(self).items,
            final(self).selection() == next_selection(old(self).selection(), old(self).items@.len()),
            final(self).wf(),
    {
        let len: usize = self.items.len();
        if len == 0 {
            self.selected = None;
        } else {
            let i: usize = match self.selected {
                Some(i) => if i >= len - 1 { 0 } else { i + 1 },
                None => 0,
            };
            self.selected = Some(i);
        }
    }

    /// Moves the selection one item backward, wrapping from the first item
    /// to the last.
    pub fn previous(&mut self)
        requires
            old(self).wf(),
        ensures
            final(self).items == old(self).items,
            final(self).selection() == previous_selection(
                old(self).selection(),
                old(self).items@.len(),
            ),
            final(self).wf(),
    {
        let len: usize = self.items.len();
        if len == 0 {
            self.selected = None;
        } else {
            let i: usize = match self.selected {
                Some(i) => if i == 0 { len - 1 } else { i - 1 },
                None => 0,
            };
            self.selected = Some(i);
        }
    }

    /// The selected item, or `None` if nothing is selected.
    pub fn selected(&self) -> (item: Option<&T>)
        requires
            self.wf(),
        ensures
            match self.selected {
                Some(i) => item == Some(&self.items@[i as int]),
                None => item is None,
            },
    {
        match self.selected {
            Some(i) => Some(&self.items[i]),
            None => None,
        }
    }
}

/// Both navigation steps keep a legal selection legal, and in a list that
/// is not empty they always select an item.
pub proof fn lemma_step_in_range(selected: Option<nat>, len: nat)
    requires
        selection_in_range(selected, len),
    ensures
        selection_in_range(next_selection(selected, len), len),
        selection_in_range(previous_selection(selected, len), len),
        len > 0 ==> next_selection(selected, len) is Some,
        len > 0 ==> previous_selection(selected, len) is Some,
        len == 0 ==> next_selection(selected, len) is None,
        len == 0 ==> previous_selection(selected, len) is None,
{
}

/// After any sequence of navigation steps the selection is still legal. In
/// a list that is not empty, one step or more leaves an item selected; in an
/// empty list nothing is ever selected.
pub proof fn lemma_navigate_in_range(selected: Option<nat>, len: nat, steps: Seq<Step>)
    requires
        selection_in_range(selected, len),
    ensures
        selection_in_range(navigate(selected, len, steps), len),
        len > 0 && steps.len() > 0 ==> navigate(selected, len, steps) is Some,
        len == 0 ==> navigate(selected, len, steps) is None,
    decreases steps.len(),
{
    if steps.len() > 0 {
        lemma_navigate_in_range(selected, len, steps.drop_last());
        lemma_step_in_range(navigate(selected, len, steps.drop_last()), len);
    }
}

/// Navigation wraps at both ends: forward from the last item is the first,
/// backward from the first item is the last.
pub proof fn lemma_selection_wraps(len: nat)
    requires
        0 < len,
    ensures
        next_selection(Some((len - 1) as nat), len) == Some(0nat),
        previous_selection(Some(0nat), len) == Some((len - 1) as nat),
{
}

/// A step forward and a step backward undo each other, from any selected
/// item.
pub proof fn lemma_steps_cancel(i: nat, len: nat)
    requires
        i < len,
    ensures
        previous_selection(next_selection(Some(i), len), len) == Some(i),
        next_selection(previous_selection(Some(i), len), len) == Some(i),
{
}

/// Stepping forward `len` times from a selected item comes back to it.
pub proof fn lemma_full_cycle(i: nat, len: nat)
    requires
        i < len,
    ensures
        navigate(Some(i), len, Seq::new(len, |k: int| Step::Next)) == Some(i),
{
    lemma_forward(i, len, len);
    let n = len as int;
    lemma_mod_multiples_vanish(1, i as int, n);
    lemma_small_mod(i, len);
}

/// Stepping forward `count` times from item `i` selects item
/// `(i + count) mod len`.
pub proof fn lemma_forward(i: nat, len: nat, count: nat)
    requires
        i < len,
    ensures
        navigate(Some(i), len, Seq::new(count, |k: int| Step::Next)) == Some(
            ((i + count) % len) as nat,
        ),
    decreases count,
{
    let steps = Seq::new(count, |k: int| Step::Next);
    let n = len as int;
    if count == 0 {
        lemma_small_mod(i, len);
    } else {
        let shorter = Seq::new((count - 1) as nat, |k: int| Step::Next);
        assert(steps.drop_last() =~= shorter);
        lemma_forward(i, len, (count - 1) as nat);
        let x = i + count - 1;
        let before = x % n;
        lemma_mod_pos_bound(x, n);
        lemma_add_mod_noop_right(1, x, n);
        if before + 1 < n {
            lemma_small_mod((before + 1) as nat, len);
        } else {
            lemma_mod_self_0(n);
        }
    }
}

} // verus!
