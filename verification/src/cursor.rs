//! Selection cursors: an optional zero-based index over one list view, moved
//! circularly by the navigation keys.

use vstd::prelude::*;

verus! {

/// Index reached by one downward step from row `i` in a list of `len` rows:
/// past the last row the selection wraps to row 0.
pub open spec fn down_from(i: int, len: int) -> int {
    if i >= len - 1 {
        0
    } else {
        i + 1
    }
}

/// Index reached by one upward step from row `i` in a list of `len` rows:
/// past row 0 the selection wraps to the last row.
pub open spec fn up_from(i: int, len: int) -> int {
    if i == 0 {
        len - 1
    } else {
        i - 1
    }
}

/// Index reached after `n` downward steps from row `i`.
pub open spec fn down_steps(i: int, n: nat, len: int) -> int
    decreases n,
{
    if n == 0 {
        i
    } else {
        down_from(down_steps(i, (n - 1) as nat, len), len)
    }
}

/// Index reached after `n` upward steps from row `i`.
pub open spec fn up_steps(i: int, n: nat, len: int) -> int
    decreases n,
{
    if n == 0 {
        i
    } else {
        up_from(up_steps(i, (n - 1) as nat, len), len)
    }
}

proof fn lemma_down_steps_closed_form(i: int, n: nat, len: int)
    requires
        0 <= i < len,
        n <= len,
    ensures
        down_steps(i, n, len) == if i + n < len {
            i + n
        } else {
            i + n - len
        },
    decreases n,
{
    if n > 0 {
        lemma_down_steps_closed_form(i, (n - 1) as nat, len);
    }
}

proof fn lemma_up_steps_closed_form(i: int, n: nat, len: int)
    requires
        0 <= i < len,
        n <= len,
    ensures
        up_steps(i, n, len) == if i - n >= 0 {
            i - n
        } else {
            i - n + len
        },
    decreases n,
{
    if n > 0 {
        lemma_up_steps_closed_form(i, (n - 1) as nat, len);
    }
}

/// Circular cursor law: over a non-empty list of `len` rows, `len` downward
/// steps return the cursor to its starting row, and so do `len` upward steps.
pub proof fn lemma_cursor_cycle(i: int, len: int)
    requires
        0 <= i < len,
    ensures
        down_steps(i, len as nat, len) == i,
        up_steps(i, len as nat, len) == i,
{
    lemma_down_steps_closed_form(i, len as nat, len);
    lemma_up_steps_closed_form(i, len as nat, len);
}

/// Does the cursor stay inside a list of `len` rows?
pub open spec fn cursor_in(c: Cursor, len: nat) -> bool {
    c.pos matches Some(i) ==> i < len
}

/// One selection cursor: `None` while the list is empty or nothing has been
/// selected yet.
#[derive(Clone, Copy, PartialEq, Eq, Structural)]
pub struct Cursor {
    pub pos: Option<usize>,
}

impl Cursor {
    /// A cursor with no selection.
    pub fn new() -> (r: Cursor)
        ensures
            r.pos is None,
    {
        Cursor { pos: None }
    }

    /// The selected row, if any.
    pub fn selected(&self) -> (r: Option<usize>)
        ensures
            r == self.pos,
    {
        self.pos
    }

    /// Sets the selection outright.
    pub fn select(&mut self, index: Option<usize>)
        ensures
            final(self).pos == index,
    {
        self.pos = index;
    }

    /// Moves the selection one row down, circularly; from no selection, row 0
    /// is selected. An empty list keeps no selection. Returns the new
    /// selection.
    pub fn move_down(&mut self, len: usize) -> (r: Option<usize>)
        requires
            cursor_in(*old(self), len as nat),
        ensures
            final(self).pos == r,
            cursor_in(*final(self), len as nat),
            len == 0 ==> r is None,
            len > 0 ==> r == Some((match old(self).pos {
                Some(i) => down_from(i as int, len as int),
                None => 0,
            }) as usize),
    {
        if len == 0 {
            self.pos = None;
            return None;
        }
        let i: usize = match self.pos {
            Some(i) => if i >= len - 1 {
                0
            } else {
                i + 1
            },
            None => 0,
        };
        self.pos = Some(i);
        Some(i)
    }

    /// Moves the selection one row up, circularly; from no selection, row 0 is
    /// selected. An empty list keeps no selection. Returns the new selection.
    pub fn move_up(&mut self, len: usize) -> (r: Option<usize>)
        requires
            cursor_in(*old(self), len as nat),
        ensures
            final(self).pos == r,
            cursor_in(*final(self), len as nat),
            len == 0 ==> r is None,
            len > 0 ==> r == Some((match old(self).pos {
                Some(i) => up_from(i as int, len as int),
                None => 0,
            }) as usize),
    {
        if len == 0 {
            self.pos = None;
            return None;
        }
        let i: usize = match self.pos {
            Some(i) => if i == 0 {
                len - 1
            } else {
                i - 1
            },
            None => 0,
        };
        self.pos = Some(i);
        Some(i)
    }
}

} // verus!
