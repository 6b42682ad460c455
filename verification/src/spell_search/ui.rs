//! The containers of the search page.
//!
//! Each container of the page has a marker type that names the part of the
//! screen it arranges, so that the renderer can tell them apart.

use vstd::prelude::*;
use crate::layout::{ContainerKind, ContainerLayout};

verus! {

/// The whole search page: the search bar above the main area.
pub struct SpellSearchUi;

/// The main area: the filters beside the results.
pub struct SearchMain;

/// The column of filters.
pub struct Filters;

impl Default for SpellSearchUi {
    fn default() -> (marker: SpellSearchUi) {
        SpellSearchUi
    }
}

impl Default for SearchMain {
    fn default() -> (marker: SearchMain) {
        SearchMain
    }
}

impl Default for Filters {
    fn default() -> (marker: Filters) {
        Filters
    }
}

impl ContainerLayout for SpellSearchUi {
    open spec fn kind() -> ContainerKind {
        ContainerKind::SpellSearchUi
    }
}

impl ContainerLayout for SearchMain {
    open spec fn kind() -> ContainerKind {
        ContainerKind::SearchMain
    }
}

impl ContainerLayout for Filters {
    open spec fn kind() -> ContainerKind {
        ContainerKind::Filters
    }
}

} // verus!
