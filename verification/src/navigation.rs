//! The pages the embedding application's shell can navigate between, and
//! the labels the navigation panel shows for each.

use vstd::prelude::*;

verus! {

/// A navigable page of the shell.
#[derive(Debug, Clone, Copy, PartialEq, Eq, Structural)]
pub enum Navigation {
    Landing,
    Tabs,
}

impl Navigation {
    /// Every available page, in the order the navigation panel lists them.
    pub fn all() -> (r: Vec<Navigation>)
        ensures
            r@ == seq![Navigation::Landing, Navigation::Tabs],
    {
        let mut pages: Vec<Navigation> = Vec::new();
        pages.push(Navigation::Landing);
        pages.push(Navigation::Tabs);
        proof {
            assert(pages@ =~= seq![Navigation::Landing, Navigation::Tabs]);
        }
        pages
    }

    /// The page's display name.
    pub fn name(&self) -> (r: &'static str)
        ensures
            *self == Navigation::Landing ==> r@ == "Dashboard"@,
            *self == Navigation::Tabs ==> r@ == "Projects"@,
    {
        match self {
            Navigation::Landing => "Dashboard",
            Navigation::Tabs => "Projects",
        }
    }

    /// The page's icon.
    pub fn icon(&self) -> (r: &'static str)
        ensures
            *self == Navigation::Landing ==> r@ == "🏠"@,
            *self == Navigation::Tabs ==> r@ == "📊"@,
    {
        match self {
            Navigation::Landing => "🏠",
            Navigation::Tabs => "📊",
        }
    }
}

} // verus!
