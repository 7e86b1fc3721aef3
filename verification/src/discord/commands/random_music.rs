//! `/random_music`: shares a random track of a random followed artist.
use rand::seq::IndexedRandom;
use vstd::prelude::*;

use crate::spotify::artist::Artist;
use crate::spotify::track::Track;

verus! {

/// `IndexedRandom::choose` of rand, with the thread-local generator: `None`
/// on an empty slice, otherwise one of its elements. Which one is left to
/// chance and is not stated.
#[verifier::external_body]
fn choose_random<T>(items: &[T]) -> (chosen: Option<&T>)
    ensures
        chosen is None <==> items@.len() == 0,
        chosen matches Some(item) ==> items@.contains(*item),
{
    items.choose(&mut rand::rng())
}

/// The reply when the account follows no artist.
pub open spec fn no_artist_text() -> Seq<char> {
    "アーティストが見つかりません"@
}

/// The reply when the chosen artist has no track.
pub open spec fn no_track_text() -> Seq<char> {
    "曲が見つかりません"@
}

/// What the command does after picking an artist.
#[derive(Debug, Clone, PartialEq, Eq)]
pub enum ArtistStep {
    /// Fetch the top tracks of this artist.
    FetchTopTracks { artist_id: String },
    /// Reply with this text and stop.
    Reply(String),
}

/// The next step for the picked artist: its top tracks, or the reply that
/// no artist was found.
pub fn step_for_artist(chosen: Option<&Artist>) -> (step: ArtistStep)
    ensures
        match chosen {
            Some(artist) => step matches ArtistStep::FetchTopTracks { artist_id } && artist_id@ == artist.id@,
            None => step matches ArtistStep::Reply(text) && text@ == no_artist_text(),
        },
{
    match chosen {
        Some(artist) => ArtistStep::FetchTopTracks { artist_id: artist.id.clone() },
        None => {
            proof { reveal_strlit("アーティストが見つかりません"); }
            ArtistStep::Reply(String::from_str("アーティストが見つかりません"))
        },
    }
}

/// Picks one of the followed artists at random and decides the next step.
/// With no artist the command replies that none was found; otherwise it
/// fetches the tracks of one of them.
pub fn pick_artist(artists: &[Artist]) -> (step: ArtistStep)
    ensures
        artists@.len() == 0 ==> (step matches ArtistStep::Reply(text) && text@ == no_artist_text()),
        artists@.len() > 0 ==> (step matches ArtistStep::FetchTopTracks { artist_id }
            && exists|i: int| 0 <= i < artists@.len() && artists@[i].id@ == artist_id@),
{
    let chosen = choose_random(artists);
    proof {
        if let Some(artist) = chosen {
            let i = artists@.index_of(*artist);
            assert(0 <= i < artists@.len() && artists@[i] == *artist);
        }
    }
    step_for_artist(chosen)
}

/// The reply for the picked track: its Spotify link, or that no track was
/// found.
pub fn reply_for_track(chosen: Option<&Track>) -> (reply: String)
    ensures
        match chosen {
            Some(track) => reply@ == track.external_urls.spotify@,
            None => reply@ == no_track_text(),
        },
{
    match chosen {
        Some(track) => track.external_urls.spotify.clone(),
        None => {
            proof { reveal_strlit("曲が見つかりません"); }
            String::from_str("曲が見つかりません")
        },
    }
}

/// Picks one of the artist's tracks at random and returns the reply: its
/// Spotify link, or that no track was found.
pub fn pick_track(tracks: &[Track]) -> (reply: String)
    ensures
        tracks@.len() == 0 ==> reply@ == no_track_text(),
        tracks@.len() > 0 ==> exists|i: int|
            0 <= i < tracks@.len() && tracks@[i].external_urls.spotify@ == reply@,
{
    let chosen = choose_random(tracks);
    proof {
        if let Some(track) = chosen {
            let i = tracks@.index_of(*track);
            assert(0 <= i < tracks@.len() && tracks@[i] == *track);
        }
    }
    reply_for_track(chosen)
}

} // verus!
