//! What a player is playing.

use vstd::prelude::*;

verus! {

/// Where the media comes from.
#[derive(Default, Clone, PartialEq, Debug)]
pub enum HeosMediaSourceType {
    #[default]
    Player,
    Station,
}

/// The media a player is playing.
#[derive(Default, Clone, PartialEq, Debug)]
pub struct HeosMedia {
    pub source_type: HeosMediaSourceType,
    pub artist_title: String,
    pub song_title: String,
    pub album_title: String,
    pub image_url: String,
}

} // verus!
