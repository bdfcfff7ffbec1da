use playlist_flow::commands::{
    complete_command, submit_command, Command, FetchOutcome, FetchRequest, HandlerPlan,
};
use playlist_flow::data::{
    Alert, Playlist, PlaylistAddTrack, PlaylistLink, PlaylistRemoveTrack, SortCriteria, SortOrder,
    SortPreference, Track, TrackId,
};
use playlist_flow::error::Error;
use playlist_flow::promise::Promise;
use playlist_flow::state::AppState;

fn link(id: &str, name: &str) -> PlaylistLink {
    PlaylistLink { id: id.to_string(), name: name.to_string() }
}

fn playlist(id: &str, name: &str, track_count: u64) -> Playlist {
    Playlist {
        id: id.to_string(),
        name: name.to_string(),
        description: format!("about {}", name),
        cover_images: vec![format!("https://img.example/{}", id)],
        track_count,
    }
}

fn track(title: &str) -> Track {
    Track {
        id: TrackId { uri: Some(format!("spotify:track:{}", title)) },
        name: title.to_string(),
        artist: "artist".to_string(),
        album: "album".to_string(),
        duration_ms: 60_000,
        date_added: 7,
    }
}

fn pref(criteria: SortCriteria, order: SortOrder) -> SortPreference {
    SortPreference { criteria, order }
}

fn state_with_playlists(playlists: Vec<Playlist>) -> AppState {
    let mut st = AppState::new(pref(SortCriteria::Title, SortOrder::Ascending));
    let plan = submit_command(&mut st, &Command::LoadList);
    assert!(matches!(plan, HandlerPlan::Fetch(FetchRequest::GetPlaylists)));
    let resubmit = complete_command(&mut st, Command::LoadList, FetchOutcome::Playlists(Ok(playlists)));
    assert!(resubmit.is_empty());
    st
}

fn counts(st: &AppState) -> Vec<u64> {
    st.library.playlists.iter().map(|p| p.track_count).collect()
}

#[test]
fn stale_update_is_dropped() {
    let k1 = link("p1", "first");
    let k2 = link("p2", "second");
    let mut promise: Promise<u64, PlaylistLink> = Promise::empty();
    promise.defer(link("p1", "first"));
    promise.update(link("p1", "first"), Ok(1));
    assert!(matches!(&promise, Promise::Resolved(k, Ok(1)) if k.id == k1.id));
    promise.defer(link("p2", "second"));
    // The late resolution still carries the superseded key: it must be dropped.
    promise.update(link("p1", "first"), Ok(99));
    assert!(matches!(&promise, Promise::Deferred(k) if k.id == k2.id));
    // Only the resolution carrying the current key changes the state.
    promise.update(link("p2", "second"), Ok(2));
    assert!(matches!(&promise, Promise::Resolved(k, Ok(2)) if k.id == k2.id));
}

#[test]
fn second_resolution_of_a_settled_promise_is_dropped() {
    let mut promise: Promise<u64, PlaylistLink> = Promise::empty();
    promise.defer(link("p1", "first"));
    promise.update(link("p1", "first"), Ok(1));
    // The promise already settled; nothing is pending for this key any more.
    promise.update(link("p1", "first"), Ok(2));
    assert!(matches!(&promise, Promise::Resolved(_, Ok(1))));
}

#[test]
fn load_detail_end_to_end_sorts_by_title() {
    let mut st = AppState::new(pref(SortCriteria::Title, SortOrder::Ascending));
    let snapshot = st.config;
    let plan = submit_command(&mut st, &Command::LoadDetail(link("p", "mix"), snapshot));
    match &plan {
        HandlerPlan::Fetch(FetchRequest::GetPlaylistTracks(id)) => assert_eq!(id, "p"),
        _ => panic!("the detail load must plan a track fetch"),
    }
    assert!(matches!(&st.playlist_detail.tracks, Promise::Deferred(k) if k.id == "p"));
    let fetched = vec![track("Zeta"), track("Alpha"), track("Mu")];
    let resubmit = complete_command(
        &mut st,
        Command::LoadDetail(link("p", "mix"), snapshot),
        FetchOutcome::Tracks(Ok(fetched)),
    );
    assert!(resubmit.is_empty());
    match &st.playlist_detail.tracks {
        Promise::Resolved(k, Ok(detail)) => {
            assert_eq!(k.id, "p");
            assert_eq!(detail.id, "p");
            assert_eq!(detail.name, "mix");
            let names: Vec<&str> = detail.tracks.iter().map(|t| t.name.as_str()).collect();
            assert_eq!(names, vec!["Alpha", "Mu", "Zeta"]);
        },
        _ => panic!("detail promise must be resolved with the sorted tracks"),
    }
}

#[test]
fn load_detail_failure_resolves_with_error() {
    let mut st = AppState::new(pref(SortCriteria::Title, SortOrder::Ascending));
    let snapshot = st.config;
    submit_command(&mut st, &Command::LoadDetail(link("p", "mix"), snapshot));
    complete_command(
        &mut st,
        Command::LoadDetail(link("p", "mix"), snapshot),
        FetchOutcome::Tracks(Err(Error::new("offline"))),
    );
    match &st.playlist_detail.tracks {
        Promise::Resolved(k, Err(e)) => {
            assert_eq!(k.id, "p");
            assert_eq!(e.message, "offline");
        },
        _ => panic!("detail promise must hold the error"),
    }
}

#[test]
fn stale_detail_fetch_is_discarded() {
    let mut st = AppState::new(pref(SortCriteria::Title, SortOrder::Ascending));
    let snapshot = st.config;
    submit_command(&mut st, &Command::LoadDetail(link("p1", "one"), snapshot));
    submit_command(&mut st, &Command::LoadDetail(link("p2", "two"), snapshot));
    // The first fetch resolves late, after a newer request was deferred.
    complete_command(
        &mut st,
        Command::LoadDetail(link("p1", "one"), snapshot),
        FetchOutcome::Tracks(Ok(vec![track("Old")])),
    );
    assert!(matches!(&st.playlist_detail.tracks, Promise::Deferred(k) if k.id == "p2"));
}

#[test]
fn add_track_without_uri_is_refused_synchronously() {
    let mut st = state_with_playlists(vec![playlist("p1", "one", 5)]);
    let payload = PlaylistAddTrack { link: link("p1", "one"), track_id: TrackId { uri: None } };
    let plan = submit_command(&mut st, &Command::AddTrack(payload));
    match plan {
        HandlerPlan::Refuse(e) => assert_eq!(e.message, "Item doesn't have URI"),
        HandlerPlan::Fetch(_) => panic!("a track without a URI must never reach the collaborator"),
    }
    // The optimistic edit still happened at submission.
    assert_eq!(counts(&st), vec![6]);
    // The validation error flows through the same completion path.
    complete_command(
        &mut st,
        Command::AddTrack(PlaylistAddTrack {
            link: link("p1", "one"),
            track_id: TrackId { uri: None },
        }),
        FetchOutcome::Ack(Err(Error::new("Item doesn't have URI"))),
    );
    assert!(matches!(&st.alerts[0], Alert::Error(m) if m == "Item doesn't have URI"));
}

#[test]
fn add_track_increments_only_the_target_count() {
    let mut st = state_with_playlists(vec![
        playlist("p1", "one", 5),
        playlist("p2", "two", 7),
    ]);
    let payload = PlaylistAddTrack {
        link: link("p1", "one"),
        track_id: TrackId { uri: Some("spotify:track:x".to_string()) },
    };
    let plan = submit_command(&mut st, &Command::AddTrack(payload));
    match &plan {
        HandlerPlan::Fetch(FetchRequest::AddTrackToPlaylist(id, uri)) => {
            assert_eq!(id, "p1");
            assert_eq!(uri, "spotify:track:x");
        },
        _ => panic!("an addressable track must be sent to the collaborator"),
    }
    assert_eq!(counts(&st), vec![6, 7]);
    let resubmit = complete_command(
        &mut st,
        Command::AddTrack(PlaylistAddTrack {
            link: link("p1", "one"),
            track_id: TrackId { uri: Some("spotify:track:x".to_string()) },
        }),
        FetchOutcome::Ack(Ok(())),
    );
    assert!(resubmit.is_empty());
    assert_eq!(counts(&st), vec![6, 7]);
    assert!(matches!(&st.alerts[0], Alert::Info(m) if m == "Added to playlist."));
}

#[test]
fn add_track_failure_keeps_the_optimistic_count() {
    let mut st = state_with_playlists(vec![playlist("p1", "one", 5)]);
    let payload = PlaylistAddTrack {
        link: link("p1", "one"),
        track_id: TrackId { uri: Some("spotify:track:x".to_string()) },
    };
    submit_command(&mut st, &Command::AddTrack(payload));
    assert_eq!(counts(&st), vec![6]);
    complete_command(
        &mut st,
        Command::AddTrack(PlaylistAddTrack {
            link: link("p1", "one"),
            track_id: TrackId { uri: Some("spotify:track:x".to_string()) },
        }),
        FetchOutcome::Ack(Err(Error::new("rejected"))),
    );
    // The optimistic raise is not rolled back on failure.
    assert_eq!(counts(&st), vec![6]);
    assert!(matches!(&st.alerts[0], Alert::Error(m) if m == "rejected"));
}

#[test]
fn remove_track_resubmits_detail_load_on_success() {
    let mut st = state_with_playlists(vec![playlist("p1", "one", 5)]);
    let payload = PlaylistRemoveTrack {
        link: link("p1", "one"),
        track_id: TrackId { uri: Some("spotify:track:x".to_string()) },
    };
    submit_command(&mut st, &Command::RemoveTrack(payload));
    assert_eq!(counts(&st), vec![4]);
    let resubmit = complete_command(
        &mut st,
        Command::RemoveTrack(PlaylistRemoveTrack {
            link: link("p1", "one"),
            track_id: TrackId { uri: Some("spotify:track:x".to_string()) },
        }),
        FetchOutcome::Ack(Ok(())),
    );
    assert_eq!(resubmit.len(), 1);
    match &resubmit[0] {
        Command::LoadDetail(l, p) => {
            assert_eq!(l.id, "p1");
            assert_eq!(*p, st.config);
        },
        _ => panic!("removal must resubmit the detail load"),
    }
    assert!(matches!(&st.alerts[0], Alert::Info(m) if m == "Removed from playlist."));
}

#[test]
fn remove_track_resubmits_detail_load_on_failure_too() {
    let mut st = state_with_playlists(vec![playlist("p1", "one", 5)]);
    let payload = PlaylistRemoveTrack {
        link: link("p1", "one"),
        track_id: TrackId { uri: Some("spotify:track:x".to_string()) },
    };
    submit_command(&mut st, &Command::RemoveTrack(payload));
    let resubmit = complete_command(
        &mut st,
        Command::RemoveTrack(PlaylistRemoveTrack {
            link: link("p1", "one"),
            track_id: TrackId { uri: Some("spotify:track:x".to_string()) },
        }),
        FetchOutcome::Ack(Err(Error::new("offline"))),
    );
    assert_eq!(resubmit.len(), 1);
    assert!(matches!(&resubmit[0], Command::LoadDetail(l, _) if l.id == "p1"));
    assert!(matches!(&st.alerts[0], Alert::Error(m) if m == "offline"));
}

#[test]
fn load_list_failure_keeps_previously_loaded_storage() {
    let mut st = state_with_playlists(vec![playlist("p1", "one", 5)]);
    assert!(matches!(&st.library.status, Promise::Resolved((), Ok(()))));
    submit_command(&mut st, &Command::LoadList);
    assert!(matches!(&st.library.status, Promise::Deferred(())));
    complete_command(
        &mut st,
        Command::LoadList,
        FetchOutcome::Playlists(Err(Error::new("offline"))),
    );
    // The view-facing promise reflects the error ...
    match &st.library.status {
        Promise::Resolved((), Err(e)) => assert_eq!(e.message, "offline"),
        _ => panic!("the list promise must hold the error"),
    }
    // ... while the stored summaries stay untouched.
    assert_eq!(st.library.playlists.len(), 1);
    assert_eq!(st.library.playlists[0].id, "p1");
    assert_eq!(st.library.playlists[0].track_count, 5);
}

#[test]
fn decrement_saturates_at_zero() {
    let mut st = state_with_playlists(vec![playlist("p1", "one", 0)]);
    let payload = PlaylistRemoveTrack {
        link: link("p1", "one"),
        track_id: TrackId { uri: Some("spotify:track:x".to_string()) },
    };
    submit_command(&mut st, &Command::RemoveTrack(payload));
    assert_eq!(counts(&st), vec![0]);
}
