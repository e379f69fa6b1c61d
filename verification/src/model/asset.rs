//! Image assets as the catalog lists them for one game.

use vstd::prelude::*;

verus! {

/// One image of the catalog: where it lives and how large it is.
#[derive(Clone, Debug)]
pub struct Asset {
    pub width: u32,
    pub height: u32,
    pub url: String,
}

/// One page of a game's assets.
#[derive(Clone, Debug)]
pub struct AssetList {
    pub assets: Vec<Asset>,
    /// Whether the page reaches the end of the catalog's list.
    pub is_final: bool,
}

} // verus!
