//! The data model of the playlist resource family.

use vstd::prelude::*;

use crate::promise::Key;

verus! {

/// Identity of one playlist: its id together with its display name.  Used as
/// the correlation key of the detail promise.
pub struct PlaylistLink {
    pub id: String,
    pub name: String,
}

impl PlaylistLink {
    /// An exact copy of this link.
    pub fn duplicate(&self) -> (r: PlaylistLink)
        ensures
            r == *self,
    {
        PlaylistLink { id: self.id.clone(), name: self.name.clone() }
    }
}

impl Key for PlaylistLink {
    open spec fn key_eq_spec(&self, other: &Self) -> bool {
        self.id@ == other.id@ && self.name@ == other.name@
    }

    proof fn lemma_key_eq_refl(&self) {
    }

    fn key_matches(&self, other: &Self) -> (r: bool) {
        self.id == other.id && self.name == other.name
    }
}

impl Key for () {
    open spec fn key_eq_spec(&self, other: &Self) -> bool {
        true
    }

    proof fn lemma_key_eq_refl(&self) {
    }

    fn key_matches(&self, other: &Self) -> (r: bool) {
        true
    }
}

/// Identity of one track.  A track is addressable only if it carries a URI;
/// mutating commands refuse unaddressable tracks before any network call.
pub struct TrackId {
    pub uri: Option<String>,
}

impl TrackId {
    /// The addressable identifier of the track, if it has one.
    pub fn to_uri(&self) -> (r: Option<String>)
        ensures
            r == self.uri,
    {
        match &self.uri {
            Some(u) => Some(u.clone()),
            None => None,
        }
    }

    /// An exact copy of this identity.
    pub fn duplicate(&self) -> (r: TrackId)
        ensures
            r == *self,
    {
        TrackId { uri: self.to_uri() }
    }
}

/// One track of a playlist; immutable once fetched.
pub struct Track {
    pub id: TrackId,
    pub name: String,
    pub artist: String,
    pub album: String,
    /// Duration in milliseconds.
    pub duration_ms: u64,
    /// Timestamp of the moment the track was added to the playlist.
    pub date_added: u64,
}

impl Track {
    /// An exact copy of this track.
    pub fn duplicate(&self) -> (r: Track)
        ensures
            r == *self,
    {
        Track {
            id: self.id.duplicate(),
            name: self.name.clone(),
            artist: self.artist.clone(),
            album: self.album.clone(),
            duration_ms: self.duration_ms,
            date_added: self.date_added,
        }
    }
}

/// Summary of one playlist as held by the library.  The track count is the
/// only field subject to optimistic mutation.
pub struct Playlist {
    pub id: String,
    pub name: String,
    pub description: String,
    /// References to the cover art, as image locations.
    pub cover_images: Vec<String>,
    pub track_count: u64,
}

impl Playlist {
    /// Whether this playlist is the one the link identifies.
    pub open spec fn is_linked(self, link: PlaylistLink) -> bool {
        self.id@ == link.id@ && self.name@ == link.name@
    }

    /// This playlist with its track count replaced.
    pub open spec fn with_count(self, track_count: u64) -> Playlist {
        Playlist { track_count, ..self }
    }
}

/// The expanded view of one playlist: its identity and the ordered sequence
/// of its tracks, as produced by the merger.
pub struct PlaylistTracks {
    pub id: String,
    pub name: String,
    pub tracks: Vec<Track>,
}

/// The field a fetched collection is ordered by.
#[derive(Clone, Copy, PartialEq, Eq, Structural, Debug)]
pub enum SortCriteria {
    Title,
    Artist,
    Album,
    Duration,
    DateAdded,
}

/// The direction of the ordering.
#[derive(Clone, Copy, PartialEq, Eq, Structural, Debug)]
pub enum SortOrder {
    Ascending,
    Descending,
}

/// The slice of application state a detail request snapshots at submission
/// time: the user's sort preference.  It is read by this subsystem, never
/// mutated.
#[derive(Clone, Copy, PartialEq, Eq, Structural, Debug)]
pub struct SortPreference {
    pub criteria: SortCriteria,
    pub order: SortOrder,
}

/// Payload of a command that adds a track to a playlist.
pub struct PlaylistAddTrack {
    pub link: PlaylistLink,
    pub track_id: TrackId,
}

/// Payload of a command that removes a track from a playlist.
pub struct PlaylistRemoveTrack {
    pub link: PlaylistLink,
    pub track_id: TrackId,
}

/// A transient user-visible notification surfaced by a command completion.
pub enum Alert {
    /// A confirmation.
    Info(String),
    /// A reported failure.
    Error(String),
}

} // verus!
