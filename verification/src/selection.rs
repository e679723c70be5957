use vstd::prelude::*;

verus! {

/// The selection of a list on screen: the selected row, if any, and the
/// first row shown.
#[derive(Clone, Copy, Debug)]
pub struct ListState {
    pub offset: usize,
    pub selected: Option<usize>,
}

impl Default for ListState {
    fn default() -> (r: Self)
        ensures
            r.offset == 0,
            r.selected is None,
    {
        ListState { offset: 0, selected: None }
    }
}

impl ListState {
    /// The selected row.
    pub fn selected(&self) -> (r: Option<usize>)
        ensures
            r == self.selected,
    {
        self.selected
    }

    /// The first row shown.
    pub fn offset(&self) -> (r: usize)
        ensures
            r == self.offset,
    {
        self.offset
    }

    /// Selects a row; clearing the selection also scrolls back to the top.
    pub fn select(&mut self, index: Option<usize>)
        ensures
            final(self).selected == index,
            final(self).offset == if index is None { 0 } else { old(self).offset },
    {
        self.selected = index;
        if index.is_none() {
            self.offset = 0;
        }
    }
}

/// A selection fits a list of `n` rows: it points into the list, and there
/// is one whenever the list is not empty.
pub open spec fn selection_fits(sel: Option<usize>, n: nat) -> bool {
    match sel {
        Some(i) => i < n,
        None => n == 0,
    }
}

/// The row selected after moving down in a list of `n > 0` rows: the next
/// one, wrapping from the last to the first.
pub open spec fn next_index(sel: Option<usize>, n: nat) -> int {
    match sel {
        Some(i) => if i >= n - 1 { 0 } else { i + 1 },
        None => 0,
    }
}

/// The row selected after moving up in a list of `n > 0` rows: the
/// previous one, wrapping from the first to the last.
pub open spec fn prev_index(sel: Option<usize>, n: nat) -> int {
    match sel {
        Some(i) => if i == 0 { n - 1 } else { i - 1 },
        None => 0,
    }
}

/// The selection kept after the list changed to `n` rows: none for an empty
/// list, the first row when the old one is gone, else unchanged.
pub open spec fn refit(st: ListState, n: nat) -> ListState {
    if n == 0 {
        ListState { offset: 0, selected: None }
    } else if st.selected is None || st.selected->0 >= n {
        ListState { offset: st.offset, selected: Some(0) }
    } else {
        st
    }
}

/// Moving down from a row of a non-empty list goes to the next row modulo
/// the list's length.
pub proof fn law_next_wraps(i: usize, n: nat)
    requires
        i < n,
    ensures
        next_index(Some(i), n) == (i + 1) % (n as int),
{
    if i + 1 < n {
        vstd::arithmetic::div_mod::lemma_small_mod((i + 1) as nat, n);
    } else {
        vstd::arithmetic::div_mod::lemma_mod_self_0(n as int);
    }
}

/// Moving up undoes moving down, on every row of a non-empty list.
pub proof fn law_previous_undoes_next(i: usize, n: nat)
    requires
        i < n,
        n <= usize::MAX,
    ensures
        prev_index(Some(next_index(Some(i), n) as usize), n) == i,
{
}

/// Moving down undoes moving up, on every row of a non-empty list.
pub proof fn law_next_undoes_previous(i: usize, n: nat)
    requires
        i < n,
        n <= usize::MAX,
    ensures
        next_index(Some(prev_index(Some(i), n) as usize), n) == i,
{
}

/// After a change of the list, the kept selection fits the new list.
pub proof fn law_refit_fits(st: ListState, n: nat)
    ensures
        selection_fits(refit(st, n).selected, n),
{
}

} // verus!
