//! Wrap-around selection over a list of bounded length.

use vstd::prelude::*;

verus! {

/// The selection after moving forward in a list of `len` items: nothing in an
/// empty list, the first item when nothing was selected or the end was
/// reached, else the following item.
pub open spec fn next_index(index: Option<usize>, len: usize) -> Option<usize> {
    if len == 0 {
        None
    } else {
        match index {
            None => Some(0),
            Some(i) => if i + 1 >= len {
                Some(0)
            } else {
                Some((i + 1) as usize)
            },
        }
    }
}

/// The selection after moving backward in a list of `len` items: nothing in
/// an empty list, the first item when nothing was selected, the last item
/// from the first one or from beyond the end, else the preceding item.
pub open spec fn previous_index(index: Option<usize>, len: usize) -> Option<usize> {
    if len == 0 {
        None
    } else {
        match index {
            None => Some(0),
            Some(i) => if i == 0 || i > len {
                Some((len - 1) as usize)
            } else {
                Some((i - 1) as usize)
            },
        }
    }
}

/// The selection kept when a list of `len` items has just been loaded: an
/// index that is still inside the list stays, one that fell off the end moves
/// to the last item, and a missing one becomes the first item.
pub open spec fn settled_index(index: Option<usize>, len: usize) -> Option<usize> {
    if len == 0 {
        None
    } else {
        match index {
            None => Some(0),
            Some(i) => if i >= len {
                Some((len - 1) as usize)
            } else {
                Some(i)
            },
        }
    }
}

/// A selection fits a list of `len` items when it is empty exactly for the
/// empty list and otherwise points inside the list.
pub open spec fn index_fits(index: Option<usize>, len: usize) -> bool {
    match index {
        None => len == 0,
        Some(i) => i < len,
    }
}

/// `steps` forward moves in a row.
pub open spec fn next_times(index: Option<usize>, len: usize, steps: nat) -> Option<usize>
    decreases steps,
{
    if steps == 0 {
        index
    } else {
        next_index(next_times(index, len, (steps - 1) as nat), len)
    }
}

/// `steps` backward moves in a row.
pub open spec fn previous_times(index: Option<usize>, len: usize, steps: nat) -> Option<usize>
    decreases steps,
{
    if steps == 0 {
        index
    } else {
        previous_index(previous_times(index, len, (steps - 1) as nat), len)
    }
}

/// An optional index into a list whose length the caller supplies.
#[derive(Clone, Copy, Debug, PartialEq, Eq, Structural)]
pub struct SelectionCursor {
    pub index: Option<usize>,
}

impl SelectionCursor {
    /// A cursor with nothing selected.
    pub fn new() -> (c: SelectionCursor)
        ensures
            c.index is None,
    {
        SelectionCursor { index: None }
    }

    pub fn current(&self) -> (i: Option<usize>)
        ensures
            i == self.index,
    {
        self.index
    }

    pub fn select(&mut self, index: Option<usize>)
        ensures
            final(self).index == index,
    {
        self.index = index;
    }

    /// Moves to the following item, wrapping from the last to the first.
    pub fn next(&mut self, len: usize) -> (i: Option<usize>)
        ensures
            i == next_index(old(self).index, len),
            final(self).index == i,
            index_fits(i, len),
            len == 0 ==> i is None,
    {
        let moved = if len == 0 {
            None
        } else {
            match self.index {
                None => Some(0),
                Some(i) => if i >= len - 1 {
                    Some(0)
                } else {
                    Some(i + 1)
                },
            }
        };
        self.index = moved;
        moved
    }

    /// Moves to the preceding item, wrapping from the first to the last.
    pub fn previous(&mut self, len: usize) -> (i: Option<usize>)
        ensures
            i == previous_index(old(self).index, len),
            final(self).index == i,
            index_fits(i, len),
            len == 0 ==> i is None,
    {
        let moved = if len == 0 {
            None
        } else {
            match self.index {
                None => Some(0),
                Some(i) => if i == 0 || i > len {
                    Some(len - 1)
                } else {
                    Some(i - 1)
                },
            }
        };
        self.index = moved;
        moved
    }

    /// Brings the selection in line with a list that was just loaded.
    pub fn settle(&mut self, len: usize)
        ensures
            final(self).index == settled_index(old(self).index, len),
            index_fits(final(self).index, len),
            index_fits(old(self).index, len) ==> final(self).index == old(self).index,
    {
        self.index = if len == 0 {
            None
        } else {
            match self.index {
                None => Some(0),
                Some(i) => if i >= len {
                    Some(len - 1)
                } else {
                    Some(i)
                },
            }
        };
    }

    /// Selects the first item of a list of `len` items, or nothing if it is empty.
    pub fn reset(&mut self, len: usize)
        ensures
            final(self).index == (if len == 0 { None } else { Some(0usize) }),
            index_fits(final(self).index, len),
    {
        self.index = if len == 0 {
            None
        } else {
            Some(0)
        };
    }
}

/// Inside the list a forward move is an increment modulo the length, and a
/// backward move a decrement modulo the length.
pub proof fn lemma_moves_are_modular(i: usize, len: usize)
    requires
        i < len,
    ensures
        next_index(Some(i), len) == Some(((i + 1) % (len as int)) as usize),
        previous_index(Some(i), len) == Some(((i + len - 1) % (len as int)) as usize),
{
    if i + 1 < len {
        assert((i + 1) % (len as int) == i + 1) by (nonlinear_arith)
            requires 0 <= i + 1 < len;
    } else {
        assert((i + 1) % (len as int) == 0) by (nonlinear_arith)
            requires i + 1 == len, len > 0;
    }
    if i == 0 {
        assert((i + len - 1) % (len as int) == len - 1) by (nonlinear_arith)
            requires i == 0, len > 0;
    } else {
        assert((i + len - 1) % (len as int) == i - 1) by (nonlinear_arith)
            requires 0 < i < len;
    }
}

proof fn lemma_next_walk(len: usize, steps: nat)
    requires
        steps < len,
    ensures
        next_times(Some(0), len, steps) == Some(steps as usize),
    decreases steps,
{
    if steps > 0 {
        lemma_next_walk(len, (steps - 1) as nat);
    }
}

proof fn lemma_previous_walk(len: usize, steps: nat)
    requires
        0 < steps <= len,
    ensures
        previous_times(Some(0), len, steps) == Some((len - steps) as usize),
    decreases steps,
{
    if steps > 1 {
        lemma_previous_walk(len, (steps - 1) as nat);
    } else {
        assert(previous_times(Some(0), len, 0) == Some(0usize));
    }
}

/// Moving forward as many times as the list has items, starting at the first
/// item, ends at the first item again.
pub proof fn lemma_next_cycle(len: usize)
    requires
        len > 0,
    ensures
        next_times(Some(0), len, len as nat) == Some(0usize),
{
    lemma_next_walk(len, (len - 1) as nat);
}

/// Moving backward as many times as the list has items, starting at the first
/// item, ends at the first item again.
pub proof fn lemma_previous_cycle(len: usize)
    requires
        len > 0,
    ensures
        previous_times(Some(0), len, len as nat) == Some(0usize),
{
    lemma_previous_walk(len, len as nat);
}

/// On an empty list every move leaves nothing selected, whatever was selected before.
pub proof fn lemma_empty_list_selects_nothing(index: Option<usize>, steps: nat)
    requires
        steps > 0,
    ensures
        next_times(index, 0, steps) is None,
        previous_times(index, 0, steps) is None,
{
}

} // verus!
