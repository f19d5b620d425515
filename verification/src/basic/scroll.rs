//! The plain scroll record.

use vstd::prelude::*;

verus! {

/// A scroll.
#[derive(Clone, Debug)]
pub struct Scroll {
    pub name: String,
    pub kind: ScrollKind,
    pub identified: bool,
    /// Whether it is the exotic variant.
    pub exotic: bool,
}

/// The ten kinds of scrolls.
#[derive(Clone, Copy, Debug)]
pub enum ScrollKind {
    Upgrade,
    RemoveCurse,
    Identify,
    MagicMapping,
    MirrorImage,
    Teleportation,
    Lullaby,
    Rage,
    Recharging,
    Transmutation,
}

} // verus!
