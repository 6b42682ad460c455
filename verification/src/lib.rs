//! Focus navigation, selection and query composition for a terminal browser
//! of a tabletop role-playing reference dataset.
//!
//! The crate holds the state machine behind the user interface: a tree of
//! focusable nodes that arrow keys walk, the text buffer of the search
//! field, the accumulated search criteria and the store query composed from
//! them. Drawing, the terminal and the document store stay with the caller,
//! which hands keys in and performs the queries that come back.

pub mod app;
pub mod components;
pub mod documents;
pub mod events;
pub mod focus;
pub mod input_buffer;
pub mod laws;
pub mod layout;
pub mod models;
pub mod select_events;
pub mod spell_search;
pub mod text;
