//! Layout vocabulary of the component tree.

use vstd::prelude::*;

verus! {

/// The direction along which a container lays out its children, and along
/// which a motion request travels.
#[derive(Clone, Copy, Debug, PartialEq, Eq, Structural)]
pub enum Axis {
    Horizontal,
    Vertical,
}

/// The part of the screen that a container arranges.
#[derive(Clone, Copy, Debug, PartialEq, Eq, Structural)]
pub enum ContainerKind {
    /// The whole search page.
    SpellSearchUi,
    /// The main area of the page.
    SearchMain,
    /// The column of filters.
    Filters,
}

/// A marker type of a container: it says which part of the screen the
/// container arranges.
pub trait ContainerLayout: Default {
    /// The part of the screen that containers with this marker arrange.
    spec fn kind() -> ContainerKind;
}

} // verus!
