//! The shared application state this subsystem mutates.
//!
//! One logical owner drives every mutation and every observation: hooks run
//! to completion, one after another, on the owning side, and asynchronous
//! fetch results come back only through command completion.  The state is
//! therefore passed by exclusive mutable access into each transition, never
//! reached through ambient globals.

use vstd::prelude::*;

use crate::data::{Alert, PlaylistLink, PlaylistTracks, SortPreference};
use crate::error::Error;
use crate::library::Library;
use crate::promise::Promise;

verus! {

/// The expanded view of the currently opened playlist, wrapped in its own
/// promise keyed by playlist identity.
pub struct PlaylistDetail {
    pub tracks: Promise<PlaylistTracks, PlaylistLink>,
}

/// Whether an alert is a confirmation reading `text`.
pub open spec fn is_info_alert(a: Alert, text: Seq<char>) -> bool {
    match a {
        Alert::Info(m) => m@ == text,
        Alert::Error(_) => false,
    }
}

/// Whether one alert reading `text` was appended to the log.
pub open spec fn pushed_info(before: Seq<Alert>, after: Seq<Alert>, text: Seq<char>) -> bool {
    &&& after.len() == before.len() + 1
    &&& after.drop_last() == before
    &&& is_info_alert(after.last(), text)
}

/// The whole of the shared state: the library of summaries, the opened
/// playlist's detail, the user's sort preference, and the log of transient
/// notifications surfaced to the user.
pub struct AppState {
    pub library: Library,
    pub playlist_detail: PlaylistDetail,
    /// User configuration, read at request time and never written here.
    pub config: SortPreference,
    pub alerts: Vec<Alert>,
}

impl AppState {
    /// The state at subsystem initialization: empty promises, no alerts.
    pub fn new(config: SortPreference) -> (s: AppState)
        ensures
            s.library.playlists@ == Seq::<crate::data::Playlist>::empty(),
            s.library.status == Promise::<(), ()>::Empty,
            s.playlist_detail.tracks == Promise::<PlaylistTracks, PlaylistLink>::Empty,
            s.config == config,
            s.alerts@ == Seq::<Alert>::empty(),
    {
        AppState {
            library: Library::new(),
            playlist_detail: PlaylistDetail { tracks: Promise::empty() },
            config,
            alerts: Vec::new(),
        }
    }

    /// Surfaces a failure to the user, consuming the error.
    pub fn error_alert(&mut self, e: Error)
        ensures
            final(self).alerts@ == old(self).alerts@.push(Alert::Error(e.message)),
            final(self).library == old(self).library,
            final(self).playlist_detail == old(self).playlist_detail,
            final(self).config == old(self).config,
    {
        self.alerts.push(Alert::Error(e.message));
    }

    /// Surfaces a confirmation to the user.
    pub fn info_alert(&mut self, message: &str)
        ensures
            pushed_info(old(self).alerts@, final(self).alerts@, message@),
            final(self).library == old(self).library,
            final(self).playlist_detail == old(self).playlist_detail,
            final(self).config == old(self).config,
    {
        self.alerts.push(Alert::Info(message.to_owned()));
        proof {
            assert(self.alerts@.drop_last() =~= old(self).alerts@);
        }
    }
}

} // verus!
