//! The process-held collection of playlist summaries.
//!
//! The summaries live beside a status promise: a reload that fails records
//! the error for display in the promise while the previously loaded
//! summaries stay untouched in their storage.  The only other mutation is
//! the optimistic adjustment of one playlist's track count by one, applied
//! at command submission ahead of server confirmation.

use vstd::prelude::*;

use crate::data::{Playlist, PlaylistLink};
use crate::error::Error;
use crate::promise::Promise;

verus! {

/// A summary with its track count optimistically raised by one; a count at
/// the numeric ceiling is left as it is.
pub open spec fn bumped_up(p: Playlist) -> Playlist {
    if p.track_count < u64::MAX {
        p.with_count((p.track_count + 1) as u64)
    } else {
        p
    }
}

/// A summary with its track count optimistically lowered by one; a count of
/// zero is left as it is.
pub open spec fn bumped_down(p: Playlist) -> Playlist {
    if p.track_count > 0 {
        p.with_count((p.track_count - 1) as u64)
    } else {
        p
    }
}

/// How an optimistic count adjustment rewrites the stored summaries: the
/// playlists the link identifies move by one in the given direction, every
/// other summary is exactly unchanged.
pub open spec fn counts_adjusted(
    before: Seq<Playlist>,
    after: Seq<Playlist>,
    link: PlaylistLink,
    up: bool,
) -> bool {
    &&& after.len() == before.len()
    &&& forall|i: int|
        0 <= i < before.len() ==> #[trigger] after[i] == (if before[i].is_linked(link) {
            if up {
                bumped_up(before[i])
            } else {
                bumped_down(before[i])
            }
        } else {
            before[i]
        })
}

/// The library: the last successfully loaded playlist summaries, and the
/// view-facing promise of the list as a whole, so observers can render a
/// loading or error state for it.
pub struct Library {
    /// Underlying storage: the summaries of the last successful load.
    pub playlists: Vec<Playlist>,
    /// The lifecycle of the most recent list request.  List-wide reloads
    /// need no distinguishing token beyond "the latest one", so the
    /// correlation key carries no information.
    pub status: Promise<(), ()>,
}

impl Library {
    /// An empty library that has not requested anything yet.
    pub fn new() -> (l: Library)
        ensures
            l.playlists@ == Seq::<Playlist>::empty(),
            l.status == Promise::<(), ()>::Empty,
    {
        Library { playlists: Vec::new(), status: Promise::empty() }
    }

    /// Marks the list as being reloaded.  The stored summaries stay.
    pub fn defer_list(&mut self)
        ensures
            final(self).status == old(self).status.defer_spec(()),
            final(self).playlists == old(self).playlists,
    {
        self.status.defer(());
    }

    /// Delivers the result of a list fetch.  Success replaces the stored
    /// collection; failure is recorded for display in the promise alone,
    /// with the previously loaded summaries' storage untouched.
    pub fn resolve_list(&mut self, result: Result<Vec<Playlist>, Error>)
        ensures
            result is Ok ==> final(self).playlists == result->Ok_0 && final(self).status == old(
                self,
            ).status.update_spec((), Ok(())),
            result is Err ==> final(self).playlists == old(self).playlists && final(self).status
                == old(self).status.update_spec((), Err(result->Err_0)),
    {
        match result {
            Ok(list) => {
                self.playlists = list;
                self.status.update((), Ok(()));
            },
            Err(e) => {
                self.status.update((), Err(e));
            },
        }
    }

    /// Optimistically raises the linked playlist's displayed track count by
    /// one, ahead of server confirmation.  Every other summary, the order of
    /// the collection and the status promise are unchanged.
    pub fn increment_playlist_track_count(&mut self, link: &PlaylistLink)
        ensures
            final(self).status == old(self).status,
            counts_adjusted(old(self).playlists@, final(self).playlists@, *link, true),
    {
        let mut i: usize = 0;
        while i < self.playlists.len()
            invariant
                i <= self.playlists@.len(),
                self.status == old(self).status,
                self.playlists@.len() == old(self).playlists@.len(),
                forall|j: int|
                    i <= j < self.playlists@.len() ==> #[trigger] self.playlists@[j] == old(
                        self,
                    ).playlists@[j],
                forall|j: int|
                    0 <= j < i ==> #[trigger] self.playlists@[j] == (if old(
                        self,
                    ).playlists@[j].is_linked(*link) {
                        bumped_up(old(self).playlists@[j])
                    } else {
                        old(self).playlists@[j]
                    }),
            decreases self.playlists@.len() - i,
        {
            let linked = self.playlists[i].id == link.id && self.playlists[i].name == link.name;
            if linked && self.playlists[i].track_count < u64::MAX {
                let n = self.playlists[i].track_count;
                self.playlists[i].track_count = n + 1;
            }
            i = i + 1;
        }
    }

    /// Optimistically lowers the linked playlist's displayed track count by
    /// one, ahead of server confirmation.  Every other summary, the order of
    /// the collection and the status promise are unchanged.
    pub fn decrement_playlist_track_count(&mut self, link: &PlaylistLink)
        ensures
            final(self).status == old(self).status,
            counts_adjusted(old(self).playlists@, final(self).playlists@, *link, false),
    {
        let mut i: usize = 0;
        while i < self.playlists.len()
            invariant
                i <= self.playlists@.len(),
                self.status == old(self).status,
                self.playlists@.len() == old(self).playlists@.len(),
                forall|j: int|
                    i <= j < self.playlists@.len() ==> #[trigger] self.playlists@[j] == old(
                        self,
                    ).playlists@[j],
                forall|j: int|
                    0 <= j < i ==> #[trigger] self.playlists@[j] == (if old(
                        self,
                    ).playlists@[j].is_linked(*link) {
                        bumped_down(old(self).playlists@[j])
                    } else {
                        old(self).playlists@[j]
                    }),
            decreases self.playlists@.len() - i,
        {
            let linked = self.playlists[i].id == link.id && self.playlists[i].name == link.name;
            if linked && self.playlists[i].track_count > 0 {
                let n = self.playlists[i].track_count;
                self.playlists[i].track_count = n - 1;
            }
            i = i + 1;
        }
    }
}

/// Law: an optimistic raise moves the target playlist's count up by exactly
/// one — as long as the count is below the numeric ceiling — and leaves
/// every playlist the link does not identify exactly unchanged.
pub proof fn lemma_optimistic_raise_is_exact(
    before: Seq<Playlist>,
    after: Seq<Playlist>,
    link: PlaylistLink,
    i: int,
)
    requires
        counts_adjusted(before, after, link, true),
        0 <= i < before.len(),
    ensures
        before[i].is_linked(link) && before[i].track_count < u64::MAX ==> after[i].track_count
            == before[i].track_count + 1 && after[i].id == before[i].id && after[i].name
            == before[i].name && after[i].description == before[i].description
            && after[i].cover_images == before[i].cover_images,
        !before[i].is_linked(link) ==> after[i] == before[i],
{
}

} // verus!
