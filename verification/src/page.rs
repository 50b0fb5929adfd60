//! How a page of the embedding application's shell asks to be laid out.

use vstd::prelude::*;

verus! {

/// The layout a page requests from the shell.
#[derive(Debug, Clone, Copy, PartialEq, Eq, Structural)]
pub enum PageLayout {
    /// The page takes the full window, with no side navigation.
    Fullscreen,
    /// The page is shown beside the left navigation panel.
    WithNavigation,
}

} // verus!
