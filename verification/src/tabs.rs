//! The tabbed page of the embedding application's shell: the library holds
//! its state, the shell draws it.

use vstd::prelude::*;

verus! {

/// State of the tabbed page: which tab is selected.
#[derive(Debug, Clone, Copy)]
pub struct TabsPage {
    selected_tab: usize,
}

impl TabsPage {
    /// Which tab is currently selected.
    pub closed spec fn spec_selected_tab(&self) -> usize {
        self.selected_tab
    }

    /// A fresh tabbed page, with the first tab selected.
    pub fn new() -> (r: TabsPage)
        ensures
            r.spec_selected_tab() == 0,
    {
        TabsPage { selected_tab: 0 }
    }

    /// The selected tab's index.
    pub fn selected_tab(&self) -> (r: usize)
        ensures
            r == self.spec_selected_tab(),
    {
        self.selected_tab
    }

    /// Selects the tab at `index`.
    pub fn select_tab(&mut self, index: usize)
        ensures
            final(self).spec_selected_tab() == index,
    {
        self.selected_tab = index;
    }
}

} // verus!
