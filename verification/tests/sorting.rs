use playlist_flow::data::{SortCriteria, SortOrder, Track, TrackId};
use playlist_flow::error::Error;
use playlist_flow::sort::{compare_tracks, merge_fetch, sort_tracks};

fn track(title: &str, artist: &str, album: &str, duration_ms: u64, date_added: u64) -> Track {
    Track {
        id: TrackId { uri: Some(format!("spotify:track:{}", title)) },
        name: title.to_string(),
        artist: artist.to_string(),
        album: album.to_string(),
        duration_ms,
        date_added,
    }
}

fn titles(tracks: &[Track]) -> Vec<String> {
    tracks.iter().map(|t| t.name.clone()).collect()
}

#[test]
fn duration_ascending_sorts() {
    let input = vec![
        track("thirty", "a", "x", 30_000, 1),
        track("ten", "b", "y", 10_000, 2),
        track("twenty", "c", "z", 20_000, 3),
    ];
    let sorted = sort_tracks(input, SortCriteria::Duration, SortOrder::Ascending);
    let durations: Vec<u64> = sorted.iter().map(|t| t.duration_ms).collect();
    assert_eq!(durations, vec![10_000, 20_000, 30_000]);
}

#[test]
fn duration_descending_sorts() {
    let input = vec![
        track("thirty", "a", "x", 30_000, 1),
        track("ten", "b", "y", 10_000, 2),
        track("twenty", "c", "z", 20_000, 3),
    ];
    let sorted = sort_tracks(input, SortCriteria::Duration, SortOrder::Descending);
    let durations: Vec<u64> = sorted.iter().map(|t| t.duration_ms).collect();
    assert_eq!(durations, vec![30_000, 20_000, 10_000]);
}

#[test]
fn title_ascending_sorts_lexicographically() {
    let input = vec![
        track("Zeta", "a", "x", 1, 1),
        track("Alpha", "b", "y", 2, 2),
        track("Mu", "c", "z", 3, 3),
    ];
    let sorted = sort_tracks(input, SortCriteria::Title, SortOrder::Ascending);
    assert_eq!(titles(&sorted), vec!["Alpha", "Mu", "Zeta"]);
}

#[test]
fn title_sort_is_case_sensitive() {
    // Upper-case code points order before lower-case ones.
    let input = vec![track("alpha", "a", "x", 1, 1), track("Beta", "b", "y", 2, 2)];
    let sorted = sort_tracks(input, SortCriteria::Title, SortOrder::Ascending);
    assert_eq!(titles(&sorted), vec!["Beta", "alpha"]);
}

#[test]
fn title_sort_is_stable() {
    // Two tracks with identical titles keep their relative input order.
    let input = vec![
        track("Same", "first", "x", 1, 1),
        track("Aaa", "other", "y", 2, 2),
        track("Same", "second", "z", 3, 3),
    ];
    let sorted = sort_tracks(input, SortCriteria::Title, SortOrder::Ascending);
    assert_eq!(titles(&sorted), vec!["Aaa", "Same", "Same"]);
    assert_eq!(sorted[1].artist, "first");
    assert_eq!(sorted[2].artist, "second");
}

#[test]
fn artist_sort_orders_by_artist() {
    let input = vec![track("t1", "Nina", "x", 1, 1), track("t2", "Abel", "y", 2, 2)];
    let sorted = sort_tracks(input, SortCriteria::Artist, SortOrder::Ascending);
    assert_eq!(sorted[0].artist, "Abel");
    assert_eq!(sorted[1].artist, "Nina");
}

#[test]
fn album_sort_descending_orders_by_album() {
    let input = vec![track("t1", "a", "Early", 1, 1), track("t2", "b", "Late", 2, 2)];
    let sorted = sort_tracks(input, SortCriteria::Album, SortOrder::Descending);
    assert_eq!(sorted[0].album, "Late");
    assert_eq!(sorted[1].album, "Early");
}

#[test]
fn date_added_ascending_keeps_fetch_order() {
    let input = vec![
        track("first", "a", "x", 9, 100),
        track("second", "b", "y", 5, 200),
        track("third", "c", "z", 7, 300),
    ];
    let sorted = sort_tracks(input, SortCriteria::DateAdded, SortOrder::Ascending);
    assert_eq!(titles(&sorted), vec!["first", "second", "third"]);
}

#[test]
fn date_added_descending_reverses_fetch_order() {
    let input = vec![
        track("first", "a", "x", 9, 100),
        track("second", "b", "y", 5, 200),
        track("third", "c", "z", 7, 300),
    ];
    let sorted = sort_tracks(input, SortCriteria::DateAdded, SortOrder::Descending);
    assert_eq!(titles(&sorted), vec!["third", "second", "first"]);
}

#[test]
fn sorting_twice_changes_nothing() {
    let input = vec![
        track("thirty", "a", "x", 30_000, 1),
        track("ten", "b", "y", 10_000, 2),
        track("twenty", "c", "z", 20_000, 3),
    ];
    let once = sort_tracks(input, SortCriteria::Duration, SortOrder::Descending);
    let titles_once = titles(&once);
    let twice = sort_tracks(once, SortCriteria::Duration, SortOrder::Descending);
    assert_eq!(titles(&twice), titles_once);
}

#[test]
fn merge_fetch_success_sorts() {
    let fetched = Ok(vec![track("Zeta", "a", "x", 1, 1), track("Alpha", "b", "y", 2, 2)]);
    let (sorted, err) = merge_fetch(fetched, SortCriteria::Title, SortOrder::Ascending);
    assert_eq!(titles(&sorted), vec!["Alpha", "Zeta"]);
    assert!(err.is_none());
}

#[test]
fn merge_fetch_failure_keeps_error_beside_empty_sequence() {
    let fetched: Result<Vec<Track>, Error> = Err(Error::new("offline"));
    let (sorted, err) = merge_fetch(fetched, SortCriteria::Title, SortOrder::Ascending);
    assert!(sorted.is_empty());
    assert_eq!(err.expect("the error must be preserved").message, "offline");
}

#[test]
fn comparator_reverses_for_descending() {
    let a = track("a", "a", "x", 10, 1);
    let b = track("b", "b", "y", 20, 2);
    assert_eq!(
        compare_tracks(&a, &b, SortCriteria::Duration, SortOrder::Ascending),
        std::cmp::Ordering::Less
    );
    assert_eq!(
        compare_tracks(&a, &b, SortCriteria::Duration, SortOrder::Descending),
        std::cmp::Ordering::Greater
    );
}
