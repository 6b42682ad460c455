//! Languages.

use vstd::prelude::*;

verus! {

/// A language.
pub struct Language {
    pub index: String,
    pub name: String,
    pub desc: Option<String>,
    pub lang_type: Option<String>,
    pub typical_speakers: Option<Vec<String>>,
    pub script: Option<String>,
    pub url: String,
}

} // verus!
