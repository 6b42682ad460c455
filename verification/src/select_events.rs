//! The events that leaves emit when they are activated.

use vstd::prelude::*;

verus! {

/// The event that an activation bubbles up through the tree.
#[derive(Debug, PartialEq, Eq)]
#[allow(inconsistent_fields)]
pub enum SelectResponse {
    /// No leaf had anything to report.
    Nothing,
    /// A filter list confirmed one of its values.
    Filter { name: String, value: String },
    /// A numeric stepper confirmed its value.
    Number { name: String, value: i32 },
    /// The text entry channel submitted its text.
    Search { name: String, value: String },
}

/// Mathematical model of a [`SelectResponse`].
#[allow(inconsistent_fields)]
pub enum SelectEvent {
    Nothing,
    Filter { name: Seq<char>, value: Seq<char> },
    Number { name: Seq<char>, value: int },
    Search { name: Seq<char>, value: Seq<char> },
}

impl View for SelectResponse {
    type V = SelectEvent;

    open spec fn view(&self) -> SelectEvent {
        match self {
            SelectResponse::Nothing => SelectEvent::Nothing,
            SelectResponse::Filter { name, value } => SelectEvent::Filter {
                name: name@,
                value: value@,
            },
            SelectResponse::Number { name, value } => SelectEvent::Number {
                name: name@,
                value: *value as int,
            },
            SelectResponse::Search { name, value } => SelectEvent::Search {
                name: name@,
                value: value@,
            },
        }
    }
}

} // verus!
