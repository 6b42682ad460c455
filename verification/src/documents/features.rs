//! Parts of class features.

use vstd::prelude::*;

verus! {

/// A reference to a feature.
pub struct FeatureMin {
    pub index: Option<String>,
    pub name: Option<String>,
    pub url: Option<String>,
}

} // verus!
