//! Spotify track ids of `rspotify`, each kept together with its id text.

use vstd::prelude::*;
use vstd::string::*;

use rspotify::model::{Id, TrackId};

verus! {

/// The Spotify track id type of `rspotify`, carried opaquely.
#[verifier::external_type_specification]
#[verifier::external_body]
pub struct ExTrackId<'a>(TrackId<'a>);

/// Whether every character of `s` is an ASCII letter or digit.
pub open spec fn ascii_alphanumeric(s: Seq<char>) -> bool {
    forall|i: int|
        0 <= i < s.len() ==> {
            let c = #[trigger] s[i];
            ('0' <= c <= '9') || ('a' <= c <= 'z') || ('A' <= c <= 'Z')
        }
}

/// A Spotify track id together with the id text it holds.
///
/// Values are only made by [`SpotifyTrackId::from_uri`], from the id that
/// `TrackId::from_uri` parsed and the text `Id::id` gives back for that same
/// id, so `text` is always the id held by `id`.
#[derive(Debug)]
pub struct SpotifyTrackId {
    id: TrackId<'static>,
    text: String,
}

impl View for SpotifyTrackId {
    type V = Seq<char>;

    /// The id text of the track.
    closed spec fn view(&self) -> Seq<char> {
        self.text@
    }
}

impl SpotifyTrackId {
    /// Calls `rspotify::model::TrackId::from_uri`, and `Id::id` on the id it
    /// parsed.
    ///
    /// Trusted: for a URI `spotify:track:` followed by `s`, the parse succeeds
    /// exactly when every character of `s` is an ASCII letter or digit (the
    /// separator is the last `:`, the type must read `track`, and the id is
    /// checked with `is_ascii_alphanumeric`), and the id it holds, as `Id::id`
    /// gives it back, is `s`. The id type is opaque to the contracts, so its
    /// text is kept beside it.
    #[verifier::external_body]
    pub(crate) fn from_uri(uri: &str) -> (res: Option<SpotifyTrackId>)
        ensures
            forall|s: Seq<char>|
                uri@ == "spotify:track:"@ + s ==> {
                    &&& res is Some <==> ascii_alphanumeric(s)
                    &&& res matches Some(t) ==> t@ == s
                },
    {
        match TrackId::from_uri(uri) {
            Ok(id) => {
                let text = id.id().to_string();
                Some(SpotifyTrackId { id: id.into_static(), text })
            },
            Err(_) => None,
        }
    }

    /// The `rspotify` track id.
    pub fn track_id(&self) -> &TrackId<'static> {
        &self.id
    }

    /// The id text of the track.
    pub fn id_text(&self) -> (res: &str)
        ensures
            res@ == self@,
    {
        self.text.as_str()
    }
}

/// The Spotify track id for the id text `id`, through the URI
/// `spotify:track:{id}`; `None` when `id` holds other than ASCII letters
/// and digits. The track id returned holds `id`.
pub fn spotify_track_id(id: &str) -> (res: Option<SpotifyTrackId>)
    ensures
        res is Some <==> ascii_alphanumeric(id@),
        res matches Some(t) ==> t@ == id@,
{
    let mut uri = String::from_str("spotify:track:");
    uri.append(id);
    let res = SpotifyTrackId::from_uri(uri.as_str());
    assert(uri@ == "spotify:track:"@ + id@);
    res
}

} // verus!
