use vstd::prelude::*;

verus! {

/// The selection index into an ordered sequence of rows.  The index is
/// always a valid position in the current sequence, or None when the
/// sequence is empty; every movement re-clamps against the length it is
/// given, so a selection left stale by a shorter replacement sequence is
/// pulled back into range.
#[derive(Clone, Copy, Debug, PartialEq, Eq)]
pub struct TableState {
    pub selected: Option<usize>,
}

/// The selection is a valid position in a sequence of `len` rows:
/// Some(i) with i < len, or None exactly when there are no rows.
pub open spec fn selection_in_range(sel: Option<usize>, len: usize) -> bool {
    match sel {
        None => len == 0,
        Some(i) => i < len,
    }
}

/// Where one Down step lands: the first row when nothing was selected,
/// one past the old position, clamped to the last row.
pub open spec fn down_sel(sel: Option<usize>, len: usize) -> Option<usize> {
    if len == 0 {
        None
    } else {
        match sel {
            None => Some(0usize),
            Some(i) => if i < len - 1 {
                Some((i + 1) as usize)
            } else {
                Some((len - 1) as usize)
            },
        }
    }
}

/// Where one Up step lands: the first row when nothing was selected, one
/// before the old position (clamped into range first), stopping at row 0.
pub open spec fn up_sel(sel: Option<usize>, len: usize) -> Option<usize> {
    if len == 0 {
        None
    } else {
        match sel {
            None => Some(0usize),
            Some(i) => {
                let c = if i < len { i as int } else { len - 1 };
                if c > 0 {
                    Some((c - 1) as usize)
                } else {
                    Some(0usize)
                }
            },
        }
    }
}

/// Whatever the previous selection — in range, stale, or absent — a
/// single Up or Down step lands in range: Some(i) with i < len, or None
/// exactly when len == 0.  Since neither step needs anything of the
/// previous selection, every finite sequence of Up and Down steps keeps
/// the selection in range.
pub proof fn lemma_step_in_range(sel: Option<usize>, len: usize)
    ensures
        selection_in_range(down_sel(sel, len), len),
        selection_in_range(up_sel(sel, len), len),
{
}

/// The selection after a whole walk: each step moves down (true) or up
/// (false), always against the same row count.
pub open spec fn walk_sel(sel: Option<usize>, moves: Seq<bool>, len: usize) -> Option<usize>
    decreases moves.len(),
{
    if moves.len() == 0 {
        sel
    } else {
        walk_sel(
            if moves[0] {
                down_sel(sel, len)
            } else {
                up_sel(sel, len)
            },
            moves.drop_first(),
            len,
        )
    }
}

/// For every sequence of Up and Down steps of length one or more,
/// whatever the selection started as, the selection ends in range:
/// Some(i) with i < len, or None exactly when len == 0.
pub proof fn lemma_walk_in_range(sel: Option<usize>, moves: Seq<bool>, len: usize)
    requires
        moves.len() > 0,
    ensures
        selection_in_range(walk_sel(sel, moves, len), len),
    decreases moves.len(),
{
    let first = if moves[0] {
        down_sel(sel, len)
    } else {
        up_sel(sel, len)
    };
    lemma_step_in_range(sel, len);
    if moves.len() == 1 {
        assert(walk_sel(first, moves.drop_first(), len) == first);
    } else {
        lemma_walk_in_range(first, moves.drop_first(), len);
    }
}

impl TableState {
    /// A fresh table with nothing selected.
    pub fn new() -> (r: Self)
        ensures
            r == (TableState { selected: None }),
    {
        TableState { selected: None }
    }

    /// Moves the selection one row down within a sequence of `len` rows.
    pub fn next(&mut self, len: usize)
        ensures
            final(self).selected == down_sel(old(self).selected, len),
            selection_in_range(final(self).selected, len),
    {
        if len == 0 {
            self.selected = None;
        } else {
            let ns: usize = match self.selected {
                None => 0,
                Some(i) => if i < len - 1 {
                    i + 1
                } else {
                    len - 1
                },
            };
            self.selected = Some(ns);
        }
    }

    /// Moves the selection one row up within a sequence of `len` rows.
    pub fn previous(&mut self, len: usize)
        ensures
            final(self).selected == up_sel(old(self).selected, len),
            selection_in_range(final(self).selected, len),
    {
        if len == 0 {
            self.selected = None;
        } else {
            let c: usize = match self.selected {
                None => 0,
                Some(i) => if i < len {
                    i
                } else {
                    len - 1
                },
            };
            let ns: usize = if c > 0 {
                c - 1
            } else {
                0
            };
            self.selected = Some(ns);
        }
    }
}

} // verus!
