//! Parts of character backgrounds.

use vstd::prelude::*;
use crate::documents::alignments::Alignment;

verus! {

/// An ideal that a background suggests, with the alignments it suits.
pub struct Ideal {
    pub desc: String,
    pub alignments: Vec<Alignment>,
}

} // verus!
