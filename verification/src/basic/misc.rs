//! A named miscellaneous item.

use vstd::prelude::*;

verus! {

/// A miscellaneous item (keys and the like).
#[derive(Clone, Debug)]
pub struct Misc {
    pub name: String,
}

} // verus!
