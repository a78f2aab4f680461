//! The selection cursor: a position in the process view that wraps round at both ends
//! and is brought back into range whenever the view is rebuilt.

use vstd::prelude::*;

verus! {

/// The highlighted position in the view, if there is one. The cursor follows
/// positions, not processes: after a rebuild the same position may show another
/// process.
#[derive(Clone, Copy, Debug, PartialEq, Eq)]
pub struct Cursor {
    /// The position, counted from zero, or `None` where nothing is highlighted.
    pub index: Option<usize>,
}

/// What can happen to a cursor.
pub enum CursorOp {
    /// One position down.
    Next,
    /// One position up.
    Previous,
    /// Back to the top.
    Reset,
    /// The view was rebuilt and now has this many entries.
    Rebuild(usize),
}

impl Cursor {
    /// The cursor at position `index`.
    pub open spec fn at(index: usize) -> Cursor {
        Cursor { index: Some(index) }
    }

    /// The cursor that highlights nothing.
    pub open spec fn absent() -> Cursor {
        Cursor { index: None }
    }

    /// The cursor points at one of `len` entries.
    pub open spec fn in_range(self, len: usize) -> bool {
        self.index matches Some(i) && i < len
    }

    /// The cursor is good for a view of `len` entries: it points at one of them, unless
    /// there are none.
    pub open spec fn fits(self, len: usize) -> bool {
        len > 0 ==> self.in_range(len)
    }

    /// One position down in a view of `len` entries, from the last to the first. An
    /// absent cursor goes to the first. In an empty view nothing moves.
    pub open spec fn after_next(self, len: usize) -> Cursor {
        if len == 0 {
            self
        } else {
            match self.index {
                Some(i) => if i >= len - 1 {
                    Cursor::at(0)
                } else {
                    Cursor::at((i + 1) as usize)
                },
                None => Cursor::at(0),
            }
        }
    }

    /// One position up in a view of `len` entries, from the first to the last. A cursor
    /// beyond the last entry goes to the last, an absent one to the first. In an empty
    /// view nothing moves.
    pub open spec fn after_previous(self, len: usize) -> Cursor {
        if len == 0 {
            self
        } else {
            match self.index {
                Some(i) => if i == 0 || i >= len {
                    Cursor::at((len - 1) as usize)
                } else {
                    Cursor::at((i - 1) as usize)
                },
                None => Cursor::at(0),
            }
        }
    }

    /// The cursor after the view was rebuilt with `len` entries: absent if there are
    /// none, at the first if it was absent, at the last if it would point beyond it,
    /// and where it was otherwise.
    pub open spec fn reconciled(self, len: usize) -> Cursor {
        if len == 0 {
            Cursor::absent()
        } else {
            match self.index {
                Some(i) => if i >= len {
                    Cursor::at((len - 1) as usize)
                } else {
                    self
                },
                None => Cursor::at(0),
            }
        }
    }

    /// The cursor after `times` steps down.
    pub open spec fn after_next_times(self, len: usize, times: nat) -> Cursor
        decreases times,
    {
        if times == 0 {
            self
        } else {
            self.after_next_times(len, (times - 1) as nat).after_next(len)
        }
    }

    /// The cursor after `times` steps up.
    pub open spec fn after_previous_times(self, len: usize, times: nat) -> Cursor
        decreases times,
    {
        if times == 0 {
            self
        } else {
            self.after_previous_times(len, (times - 1) as nat).after_previous(len)
        }
    }

    /// A cursor that highlights nothing.
    pub fn new() -> (cursor: Self)
        ensures
            cursor == Cursor::absent(),
    {
        Cursor { index: None }
    }

    /// The highlighted position, if there is one.
    pub fn selected(&self) -> (index: Option<usize>)
        ensures
            index == self.index,
    {
        self.index
    }

    /// Moves one position down in a view of `len` entries.
    pub fn next(&mut self, len: usize)
        ensures
            *final(self) == old(self).after_next(len),
            final(self).fits(len),
    {
        if len == 0 {
            return ;
        }
        let index: usize = match self.index {
            Some(i) => if i >= len - 1 {
                0
            } else {
                i + 1
            },
            None => 0,
        };
        self.index = Some(index);
    }

    /// Moves one position up in a view of `len` entries.
    pub fn previous(&mut self, len: usize)
        ensures
            *final(self) == old(self).after_previous(len),
            final(self).fits(len),
    {
        if len == 0 {
            return ;
        }
        let index: usize = match self.index {
            Some(i) => if i == 0 || i >= len {
                len - 1
            } else {
                i - 1
            },
            None => 0,
        };
        self.index = Some(index);
    }

    /// Moves to the first position.
    pub fn reset(&mut self)
        ensures
            *final(self) == Cursor::at(0),
    {
        self.index = Some(0);
    }

    /// Brings the cursor into a view that was rebuilt with `len` entries.
    pub fn reconcile(&mut self, len: usize)
        ensures
            *final(self) == old(self).reconciled(len),
            final(self).fits(len),
            len == 0 ==> final(self).index.is_none(),
    {
        if len == 0 {
            self.index = None;
        } else {
            let index: usize = match self.index {
                Some(i) => if i >= len {
                    len - 1
                } else {
                    i
                },
                None => 0,
            };
            self.index = Some(index);
        }
    }
}

/// The cursor and the length of the view after one operation.
pub open spec fn cursor_step(cursor: Cursor, len: usize, op: CursorOp) -> (Cursor, usize) {
    match op {
        CursorOp::Next => (cursor.after_next(len), len),
        CursorOp::Previous => (cursor.after_previous(len), len),
        CursorOp::Reset => (Cursor::at(0), len),
        CursorOp::Rebuild(new_len) => (cursor.reconciled(new_len), new_len),
    }
}

/// The cursor and the length of the view after a run of operations, first to last.
pub open spec fn cursor_run(cursor: Cursor, len: usize, ops: Seq<CursorOp>) -> (Cursor, usize)
    decreases ops.len(),
{
    if ops.len() == 0 {
        (cursor, len)
    } else {
        let (before, before_len) = cursor_run(cursor, len, ops.drop_last());
        cursor_step(before, before_len, ops.last())
    }
}

/// Stepping down and stepping up undo each other, in either order.
pub proof fn lemma_previous_undoes_next(cursor: Cursor, len: usize)
    requires
        cursor.in_range(len),
    ensures
        cursor.after_next(len).after_previous(len) == cursor,
        cursor.after_previous(len).after_next(len) == cursor,
{
}

proof fn lemma_next_times(cursor: Cursor, len: usize, times: nat)
    requires
        cursor.in_range(len),
        times <= len,
    ensures
        cursor.after_next_times(len, times) == Cursor::at(
            if cursor.index->0 + times < len {
                (cursor.index->0 + times) as usize
            } else {
                (cursor.index->0 + times - len) as usize
            },
        ),
    decreases times,
{
    if times > 0 {
        lemma_next_times(cursor, len, (times - 1) as nat);
    }
}

proof fn lemma_previous_times(cursor: Cursor, len: usize, times: nat)
    requires
        cursor.in_range(len),
        times <= len,
    ensures
        cursor.after_previous_times(len, times) == Cursor::at(
            if cursor.index->0 >= times {
                (cursor.index->0 - times) as usize
            } else {
                (cursor.index->0 - times + len) as usize
            },
        ),
    decreases times,
{
    if times > 0 {
        lemma_previous_times(cursor, len, (times - 1) as nat);
    }
}

/// As many steps as the view has entries, all down or all up, lead back to where the
/// cursor was.
pub proof fn lemma_full_cycle(cursor: Cursor, len: usize)
    requires
        cursor.in_range(len),
    ensures
        cursor.after_next_times(len, len as nat) == cursor,
        cursor.after_previous_times(len, len as nat) == cursor,
{
    lemma_next_times(cursor, len, len as nat);
    lemma_previous_times(cursor, len, len as nat);
}

/// One operation on a cursor gives a cursor that is good for the view as it then is,
/// whatever the cursor was before.
pub proof fn lemma_step_fits(cursor: Cursor, len: usize, op: CursorOp)
    ensures
        cursor_step(cursor, len, op).0.fits(cursor_step(cursor, len, op).1),
{
}

/// A cursor that is good for its view stays so through every run of operations, also
/// where rebuilds change the length of the view on the way.
pub proof fn lemma_run_fits(cursor: Cursor, len: usize, ops: Seq<CursorOp>)
    requires
        cursor.fits(len),
    ensures
        cursor_run(cursor, len, ops).0.fits(cursor_run(cursor, len, ops).1),
    decreases ops.len(),
{
    if ops.len() > 0 {
        let (before, before_len) = cursor_run(cursor, len, ops.drop_last());
    }
}

} // verus!
