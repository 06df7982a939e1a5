//! Wrap-around list navigation shared by every list-backed mode.

use vstd::prelude::*;

verus! {

/// Where the cursor lands after one step up, over a list of `count` items.
pub open spec fn spec_up(cursor: int, count: int) -> int {
    if cursor == 0 {
        count - 1
    } else {
        cursor - 1
    }
}

/// Where the cursor lands after one step down, over a list of `count` items.
pub open spec fn spec_down(cursor: int, count: int) -> int {
    if cursor == count - 1 {
        0
    } else {
        cursor + 1
    }
}

/// Cursor state over a selectable list.  `None` means no selection; whenever
/// the list it navigates is non-empty the cursor points at a valid index.
pub struct SelectionCursor {
    pub selected: Option<usize>,
}

impl SelectionCursor {
    /// The cursor is within bounds for a list of `count` items.
    pub open spec fn in_bounds(&self, count: nat) -> bool {
        match self.selected {
            Some(i) => i < count,
            None => true,
        }
    }

    /// The index the next step starts from: the selection if it is valid,
    /// otherwise the top of the list.
    pub open spec fn spec_base(&self, count: nat) -> int {
        match self.selected {
            Some(i) => if i < count {
                i as int
            } else {
                0
            },
            None => 0,
        }
    }

    pub fn new() -> (r: SelectionCursor)
        ensures
            r.selected is None,
    {
        SelectionCursor { selected: None }
    }

    pub fn select_first(&mut self, count: usize)
        ensures
            count > 0 ==> final(self).selected == Some(0usize),
            count == 0 ==> final(self).selected is None,
    {
        if count > 0 {
            self.selected = Some(0);
        } else {
            self.selected = None;
        }
    }

    pub fn clear(&mut self)
        ensures
            final(self).selected is None,
    {
        self.selected = None;
    }

    /// One step towards the top of the list, wrapping to the bottom.
    /// A no-op (with the selection cleared) on an empty list.
    pub fn up(&mut self, count: usize)
        ensures
            count > 0 ==> final(self).selected == Some(
                spec_up(old(self).spec_base(count as nat), count as int) as usize,
            ),
            count == 0 ==> final(self).selected is None,
            final(self).in_bounds(count as nat),
    {
        if count == 0 {
            self.selected = None;
            return;
        }
        let base: usize = match self.selected {
            Some(i) => if i < count {
                i
            } else {
                0
            },
            None => 0,
        };
        if base == 0 {
            self.selected = Some(count - 1);
        } else {
            self.selected = Some(base - 1);
        }
    }

    /// One step towards the bottom of the list, wrapping to the top.
    /// A no-op (with the selection cleared) on an empty list.
    pub fn down(&mut self, count: usize)
        ensures
            count > 0 ==> final(self).selected == Some(
                spec_down(old(self).spec_base(count as nat), count as int) as usize,
            ),
            count == 0 ==> final(self).selected is None,
            final(self).in_bounds(count as nat),
    {
        if count == 0 {
            self.selected = None;
            return;
        }
        let base: usize = match self.selected {
            Some(i) => if i < count {
                i
            } else {
                0
            },
            None => 0,
        };
        if base == count - 1 {
            self.selected = Some(0);
        } else {
            self.selected = Some(base + 1);
        }
    }
}

/// Law: every step keeps the cursor inside a non-empty list, so any sequence
/// of `up` and `down` calls over `count` items leaves `0 <= cursor < count`.
pub proof fn lemma_step_stays_in_bounds(cursor: int, count: int)
    requires
        0 <= cursor < count,
    ensures
        0 <= spec_up(cursor, count) < count,
        0 <= spec_down(cursor, count) < count,
{
}

/// Law: one step down undoes one step up, and one step up undoes one step
/// down, for any starting cursor inside a non-empty list.
pub proof fn lemma_down_up_identity(cursor: int, count: int)
    requires
        0 <= cursor < count,
    ensures
        spec_down(spec_up(cursor, count), count) == cursor,
        spec_up(spec_down(cursor, count), count) == cursor,
{
}

} // verus!
