//! Tracks of an artist.
use vstd::prelude::*;

verus! {

/// The public links of a track.
#[derive(Debug, Clone, PartialEq, Eq)]
pub struct ExternalUrls {
    pub spotify: String,
}

/// A track, as far as the bot shares it.
#[derive(Debug, Clone, PartialEq, Eq)]
pub struct Track {
    pub external_urls: ExternalUrls,
}

} // verus!
