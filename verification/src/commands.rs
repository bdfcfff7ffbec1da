//! The command surface: typed, named requests and their three phases.
//!
//! A command binds a before-hook, an asynchronous handler and an after-hook.
//! [`submit_command`] is the synchronous submission phase: it runs the
//! before-hook (defer the promise, apply the optimistic edit) and plans the
//! handler's outside work.  The fetch itself runs off the owning side; its
//! outcome is handed back to [`complete_command`], the after-hook, which
//! resolves promises, surfaces notifications, and names the commands to
//! resubmit.  Exactly one completion belongs to each submission; expected
//! failures flow through the same completion path as successes — there is
//! no separate crash path.

use vstd::prelude::*;

use crate::data::{
    Alert, PlaylistAddTrack, PlaylistLink, PlaylistRemoveTrack, PlaylistTracks, SortPreference,
    Track,
};
use crate::error::Error;
use crate::library::counts_adjusted;
use crate::promise::Promise;
use crate::sort::{sort_tracks, sorted_by_pref};
use crate::state::{pushed_info, AppState};

verus! {

/// A named request carrying its payload.
pub enum Command {
    /// (Re)fetch all playlist summaries.
    LoadList,
    /// (Re)fetch and sort one playlist's tracks.  The preference is the
    /// snapshot of the application state taken at request time: the sort is
    /// applied with it, not with whatever the configuration says later.
    LoadDetail(PlaylistLink, SortPreference),
    /// Optimistically raise a count, then ask the server to add the track.
    AddTrack(PlaylistAddTrack),
    /// Optimistically lower a count, then ask the server to remove the
    /// track, then reload the detail view for an authoritative ordering.
    RemoveTrack(PlaylistRemoveTrack),
}

/// One operation of the external fetch collaborator, named by the handler
/// and performed off the owning side.
pub enum FetchRequest {
    /// All playlist summaries.
    GetPlaylists,
    /// The tracks of the playlist with the given id.
    GetPlaylistTracks(String),
    /// Add the track with the given URI to the playlist with the given id.
    AddTrackToPlaylist(String, String),
    /// Remove the track with the given URI from the playlist with the given id.
    RemoveTrackFromPlaylist(String, String),
}

/// What the handler decided at submission: either the outside operation to
/// perform, or a validation failure detected synchronously, before any
/// network call, that completes the command with an error straight away.
pub enum HandlerPlan {
    Fetch(FetchRequest),
    Refuse(Error),
}

/// The result the collaborator handed back for one fetch request.
pub enum FetchOutcome {
    Playlists(Result<Vec<crate::data::Playlist>, Error>),
    Tracks(Result<Vec<Track>, Error>),
    Ack(Result<(), Error>),
}

/// Whether an outcome is of the shape the command's handler awaits.
pub open spec fn outcome_fits(cmd: Command, outcome: FetchOutcome) -> bool {
    match cmd {
        Command::LoadList => outcome is Playlists,
        Command::LoadDetail(_, _) => outcome is Tracks,
        Command::AddTrack(_) => outcome is Ack,
        Command::RemoveTrack(_) => outcome is Ack,
    }
}

/// The message of the validation error for a track that lacks an
/// addressable identifier.
pub open spec fn missing_uri_message() -> Seq<char> {
    "Item doesn't have URI"@
}

/// How a successful detail fetch resolves the detail promise: if the
/// promise still awaits this playlist, it resolves to the fetched tracks
/// ordered by the snapshot's preference under the playlist's identity;
/// otherwise the fetch was superseded and the promise is unchanged.
pub open spec fn detail_resolved(
    before: Promise<PlaylistTracks, PlaylistLink>,
    after: Promise<PlaylistTracks, PlaylistLink>,
    link: PlaylistLink,
    fetched: Seq<Track>,
    pref: SortPreference,
) -> bool {
    if before.accepts(link) {
        &&& after is Resolved
        &&& after->Resolved_0 == link
        &&& after->Resolved_1 is Ok
        &&& after->Resolved_1->Ok_0.id == link.id
        &&& after->Resolved_1->Ok_0.name == link.name
        &&& after->Resolved_1->Ok_0.tracks@ == sorted_by_pref(fetched, pref.criteria, pref.order)
    } else {
        after == before
    }
}

/// The submission phase: runs the before-hook synchronously and plans the
/// handler's outside work.  Submitting never blocks on the network; a track
/// without an addressable identifier is refused here, with no fetch request
/// planned at all.
pub fn submit_command(state: &mut AppState, cmd: &Command) -> (plan: HandlerPlan)
    ensures
        final(state).config == old(state).config,
        match *cmd {
            Command::LoadList => {
                &&& final(state).library.playlists == old(state).library.playlists
                &&& final(state).library.status == old(state).library.status.defer_spec(())
                &&& final(state).playlist_detail == old(state).playlist_detail
                &&& final(state).alerts == old(state).alerts
                &&& plan == HandlerPlan::Fetch(FetchRequest::GetPlaylists)
            },
            Command::LoadDetail(link, pref) => {
                &&& final(state).library == old(state).library
                &&& final(state).playlist_detail.tracks == old(state).playlist_detail.tracks.defer_spec(link)
                &&& final(state).alerts == old(state).alerts
                &&& plan == HandlerPlan::Fetch(FetchRequest::GetPlaylistTracks(link.id))
            },
            Command::AddTrack(p) => {
                &&& counts_adjusted(
                    old(state).library.playlists@,
                    final(state).library.playlists@,
                    p.link,
                    true,
                )
                &&& final(state).library.status == old(state).library.status
                &&& final(state).playlist_detail == old(state).playlist_detail
                &&& final(state).alerts == old(state).alerts
                &&& match p.track_id.uri {
                    Some(uri) => plan == HandlerPlan::Fetch(
                        FetchRequest::AddTrackToPlaylist(p.link.id, uri),
                    ),
                    None => plan matches HandlerPlan::Refuse(e) && e.message@
                        == missing_uri_message(),
                }
            },
            Command::RemoveTrack(p) => {
                &&& counts_adjusted(
                    old(state).library.playlists@,
                    final(state).library.playlists@,
                    p.link,
                    false,
                )
                &&& final(state).library.status == old(state).library.status
                &&& final(state).playlist_detail == old(state).playlist_detail
                &&& final(state).alerts == old(state).alerts
                &&& match p.track_id.uri {
                    Some(uri) => plan == HandlerPlan::Fetch(
                        FetchRequest::RemoveTrackFromPlaylist(p.link.id, uri),
                    ),
                    None => plan matches HandlerPlan::Refuse(e) && e.message@
                        == missing_uri_message(),
                }
            },
        },
{
    match cmd {
        Command::LoadList => {
            state.library.defer_list();
            HandlerPlan::Fetch(FetchRequest::GetPlaylists)
        },
        Command::LoadDetail(link, _pref) => {
            state.playlist_detail.tracks.defer(link.duplicate());
            HandlerPlan::Fetch(FetchRequest::GetPlaylistTracks(link.id.clone()))
        },
        Command::AddTrack(p) => {
            state.library.increment_playlist_track_count(&p.link);
            match p.track_id.to_uri() {
                Some(uri) => HandlerPlan::Fetch(
                    FetchRequest::AddTrackToPlaylist(p.link.id.clone(), uri),
                ),
                None => HandlerPlan::Refuse(Error::new("Item doesn't have URI")),
            }
        },
        Command::RemoveTrack(p) => {
            state.library.decrement_playlist_track_count(&p.link);
            match p.track_id.to_uri() {
                Some(uri) => HandlerPlan::Fetch(
                    FetchRequest::RemoveTrackFromPlaylist(p.link.id.clone(), uri),
                ),
                None => HandlerPlan::Refuse(Error::new("Item doesn't have URI")),
            }
        },
    }
}

/// The completion phase, the after-hook: resolves the promise the command
/// deferred, surfaces the user-visible notification, and names the commands
/// the dispatcher must resubmit.  Removing a track always resubmits the
/// detail load for the same playlist — membership changed in a way a local
/// counter edit cannot represent — whatever the server answered.
pub fn complete_command(state: &mut AppState, cmd: Command, outcome: FetchOutcome) -> (resubmit:
    Vec<Command>)
    requires
        outcome_fits(cmd, outcome),
    ensures
        final(state).config == old(state).config,
        match cmd {
            Command::LoadList => {
                let result = outcome->Playlists_0;
                &&& final(state).playlist_detail == old(state).playlist_detail
                &&& final(state).alerts == old(state).alerts
                &&& result is Ok ==> final(state).library.playlists == result->Ok_0 && final(state).library.status == old(state).library.status.update_spec((), Ok(()))
                &&& result is Err ==> final(state).library.playlists == old(state).library.playlists && final(state).library.status == old(state).library.status.update_spec((), Err(result->Err_0))
                &&& resubmit@ == Seq::<Command>::empty()
            },
            Command::LoadDetail(link, pref) => {
                let result = outcome->Tracks_0;
                &&& final(state).library == old(state).library
                &&& final(state).alerts == old(state).alerts
                &&& result is Ok ==> detail_resolved(
                    old(state).playlist_detail.tracks,
                    final(state).playlist_detail.tracks,
                    link,
                    result->Ok_0@,
                    pref,
                )
                &&& result is Err ==> final(state).playlist_detail.tracks == old(state).playlist_detail.tracks.update_spec(link, Err(result->Err_0))
                &&& resubmit@ == Seq::<Command>::empty()
            },
            Command::AddTrack(p) => {
                let result = outcome->Ack_0;
                &&& final(state).library == old(state).library
                &&& final(state).playlist_detail == old(state).playlist_detail
                &&& result is Ok ==> pushed_info(
                    old(state).alerts@,
                    final(state).alerts@,
                    "Added to playlist."@,
                )
                &&& result is Err ==> final(state).alerts@ == old(state).alerts@.push(
                    Alert::Error(result->Err_0.message),
                )
                &&& resubmit@ == Seq::<Command>::empty()
            },
            Command::RemoveTrack(p) => {
                let result = outcome->Ack_0;
                &&& final(state).library == old(state).library
                &&& final(state).playlist_detail == old(state).playlist_detail
                &&& result is Ok ==> pushed_info(
                    old(state).alerts@,
                    final(state).alerts@,
                    "Removed from playlist."@,
                )
                &&& result is Err ==> final(state).alerts@ == old(state).alerts@.push(
                    Alert::Error(result->Err_0.message),
                )
                &&& resubmit@ == seq![
                    Command::LoadDetail(p.link, old(state).config),
                ]
            },
        },
{
    match cmd {
        Command::LoadList => {
            let result = match outcome {
                FetchOutcome::Playlists(r) => r,
                _ => vstd::pervasive::unreached(),
            };
            state.library.resolve_list(result);
            Vec::new()
        },
        Command::LoadDetail(link, pref) => {
            let result = match outcome {
                FetchOutcome::Tracks(r) => r,
                _ => vstd::pervasive::unreached(),
            };
            match result {
                Ok(tracks) => {
                    let sorted = sort_tracks(tracks, pref.criteria, pref.order);
                    let value = PlaylistTracks {
                        id: link.id.clone(),
                        name: link.name.clone(),
                        tracks: sorted,
                    };
                    state.playlist_detail.tracks.update(link, Ok(value));
                },
                Err(e) => {
                    state.playlist_detail.tracks.update(link, Err(e));
                },
            }
            Vec::new()
        },
        Command::AddTrack(_p) => {
            let result = match outcome {
                FetchOutcome::Ack(r) => r,
                _ => vstd::pervasive::unreached(),
            };
            match result {
                Ok(_) => state.info_alert("Added to playlist."),
                Err(e) => state.error_alert(e),
            }
            Vec::new()
        },
        Command::RemoveTrack(p) => {
            let result = match outcome {
                FetchOutcome::Ack(r) => r,
                _ => vstd::pervasive::unreached(),
            };
            match result {
                Ok(_) => state.info_alert("Removed from playlist."),
                Err(e) => state.error_alert(e),
            }
            let mut resubmit: Vec<Command> = Vec::new();
            resubmit.push(Command::LoadDetail(p.link, state.config));
            proof {
                assert(resubmit@ =~= seq![Command::LoadDetail(p.link, old(state).config)]);
            }
            resubmit
        },
    }
}

} // verus!
