//! List selection: which row of a list is highlighted, and how it moves.
use vstd::prelude::*;

verus! {

/// The highlighted row of a list, if any.
#[derive(Debug, Clone, Copy, PartialEq, Eq, Structural)]
pub struct ListState {
    pub selected: Option<usize>,
}

/// `v` held within `[lo, hi]` (`Ord::clamp`).
pub open spec fn clamp(v: int, lo: int, hi: int) -> int {
    if v < lo { lo } else if v > hi { hi } else { v }
}

/// The row reached by moving `delta` rows from the highlighted one (row 0 when
/// none is highlighted), held within a list of `len > 0` rows.
pub open spec fn stepped(sel: Option<usize>, len: nat, delta: int) -> int {
    let cur = match sel { Some(i) => i as int, None => 0 };
    clamp(cur + delta, 0, len - 1)
}

/// The selection after `step_list`: unchanged for an empty list, else stepped.
pub open spec fn step_result(sel: Option<usize>, len: nat, delta: int) -> Option<usize> {
    if len == 0 { sel } else { Some(stepped(sel, len, delta) as usize) }
}

/// The selection of a list that now has `len` rows: none for an empty list, else
/// the old row (row 0 when none) held below `len`.
pub open spec fn clamped(sel: Option<usize>, len: nat) -> Option<usize> {
    if len == 0 {
        None
    } else {
        let cur = match sel { Some(i) => i as int, None => 0 };
        Some((if cur < len - 1 { cur } else { len - 1 }) as usize)
    }
}

impl ListState {
    /// Nothing highlighted.
    pub fn new() -> (s: ListState)
        ensures
            s.selected is None,
    {
        ListState { selected: None }
    }

    /// The highlighted row.
    pub fn selected(&self) -> (r: Option<usize>)
        ensures
            r == self.selected,
    {
        self.selected
    }

    /// Highlights `index` (or nothing).
    pub fn select(&mut self, index: Option<usize>)
        ensures
            final(self).selected == index,
    {
        self.selected = index;
    }
}

impl Default for ListState {
    fn default() -> (s: ListState)
        ensures
            s.selected is None,
    {
        ListState { selected: None }
    }
}

/// The row reached from `sel` by `delta`, within `len > 0` rows.
pub fn step_index(sel: Option<usize>, len: usize, delta: i64) -> (r: usize)
    requires
        len > 0,
    ensures
        r as int == stepped(sel, len as nat, delta as int),
        r < len,
{
    let cur: i128 = match sel {
        Some(i) => i as i128,
        None => 0,
    };
    let next: i128 = cur + delta as i128;
    let hi: i128 = len as i128 - 1;
    if next < 0 {
        0
    } else if next > hi {
        len - 1
    } else {
        next as usize
    }
}

/// Moves the highlight of a list of `len` rows by `delta` rows, staying within
/// the list; an empty list is left as it is.
pub fn step_list(state: &mut ListState, len: usize, delta: i64)
    ensures
        final(state).selected == step_result(old(state).selected, len as nat, delta as int),
{
    if len == 0 {
        return;
    }
    let next = step_index(state.selected, len, delta);
    state.select(Some(next));
}

/// Keeps the highlight of a list that now has `len` rows within it.
pub fn clamp_list(state: &mut ListState, len: usize)
    ensures
        final(state).selected == clamped(old(state).selected, len as nat),
{
    if len == 0 {
        state.select(None);
    } else {
        let cur = match state.selected {
            Some(i) => i,
            None => 0,
        };
        let i = if cur < len - 1 { cur } else { len - 1 };
        state.select(Some(i));
    }
}

/// After a step the highlight is a row of the list.
pub proof fn law_step_in_range(sel: Option<usize>, len: nat, delta: int)
    requires
        len > 0,
    ensures
        step_result(sel, len, delta) matches Some(i) && i < len,
{
}

/// One step down then one step up returns to a row that was inside the list and
/// not the last one.
pub proof fn law_step_down_up(i: usize, len: nat)
    requires
        i + 1 < len <= usize::MAX,
    ensures
        step_result(step_result(Some(i), len, 1), len, -1) == Some(i),
{
}

/// Clamping keeps a highlight that was already inside the list.
pub proof fn law_clamp_keeps_valid(i: usize, len: nat)
    requires
        i < len,
    ensures
        clamped(Some(i), len) == Some(i),
{
}

} // verus!
