use vstd::prelude::*;

verus! {

/// The selection after `select(id)`: picking the selected friend again
/// deselects it, any other id becomes the selection.
pub open spec fn selected_after(selected: Option<u128>, id: u128) -> Option<u128> {
    if selected == Some(id) {
        None
    } else {
        Some(id)
    }
}

/// Which friend, if any, is selected for splitting a bill, and whether the
/// add-friend form is open.
#[derive(Clone, Copy, Debug, PartialEq, Eq)]
pub struct SelectionState {
    pub selected: Option<u128>,
    pub add_form_open: bool,
}

impl SelectionState {
    pub fn new() -> (r: SelectionState)
        ensures
            r.selected is None,
            !r.add_form_open,
    {
        SelectionState { selected: None, add_form_open: false }
    }

    pub fn toggle_add_friend(&mut self)
        ensures
            final(self).add_form_open == !old(self).add_form_open,
            final(self).selected == old(self).selected,
    {
        self.add_form_open = !self.add_form_open;
    }

    pub fn select(&mut self, id: u128)
        ensures
            final(self).selected == selected_after(old(self).selected, id),
            !final(self).add_form_open,
    {
        let again = match self.selected {
            Some(s) => s == id,
            None => false,
        };
        if again {
            self.selected = None;
        } else {
            self.selected = Some(id);
        }
        self.add_form_open = false;
    }

    pub fn clear_selection(&mut self)
        ensures
            final(self).selected is None,
            final(self).add_form_open == old(self).add_form_open,
    {
        self.selected = None;
    }
}

/// Selecting a friend who is not selected, then selecting them again,
/// leaves no friend selected.
pub proof fn lemma_select_twice_deselects(selected: Option<u128>, id: u128)
    requires
        selected != Some(id),
    ensures
        selected_after(selected_after(selected, id), id) is None,
{
}

/// Selecting the friend who is selected deselects them.
pub proof fn lemma_reselect_deselects(id: u128)
    ensures
        selected_after(Some(id), id) is None,
{
}

} // verus!
