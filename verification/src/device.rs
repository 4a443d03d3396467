//! Device properties: what sites use to render a team, read lightly. No endpoint gives them
//! directly; some hydrations of teams and sports add them.

use vstd::prelude::*;
use crate::ids::AssetId;

verus! {

/// The device properties of a team.
#[derive(Debug, Clone)]
pub struct DeviceProperties {
    pub displayed_team_name: String,
    pub body_background_skin_wired_url: String,
    pub body_background_skin_total: usize,
    pub favicon: Asset,
    pub body_background_skin1: Asset,
    pub header_masthead_tagline: Asset,
    pub header_masthead_tagline_2x: Asset,
    pub navigation_masthead_sponsor_image: Asset,
    pub navigation_masthead_sponsor_image_2x: Asset,
    pub organism_headline_font: Asset,
    pub style: Style,
}

/// An asset of the device properties.
#[derive(Debug, Clone)]
pub enum Asset {
    ShortContent {
        id: AssetId,
        timestamp: chrono::NaiveDateTime,
        title: String,
        description: String,
        url: String,
        image: ImageData,
    },
    BinaryAsset { id: AssetId, timestamp: chrono::NaiveDateTime, binary_file_url: String },
}

/// The identifier of an asset, whichever kind it is.
pub open spec fn asset_id(a: Asset) -> AssetId {
    match a {
        Asset::ShortContent { id, .. } => id,
        Asset::BinaryAsset { id, .. } => id,
    }
}

impl Asset {
    /// The identifier of the asset.
    pub fn id(&self) -> (res: AssetId)
        ensures
            res == asset_id(*self),
    {
        match self {
            Asset::ShortContent { id, .. } => *id,
            Asset::BinaryAsset { id, .. } => *id,
        }
    }
}

/// An image of the device properties.
#[derive(Debug, Clone)]
pub struct ImageData {
    pub title: Option<String>,
    pub alt_text: Option<String>,
}

/// The style of the device properties, of which nothing is read.
#[derive(Debug, Clone, Copy)]
pub struct Style {}

} // verus!
