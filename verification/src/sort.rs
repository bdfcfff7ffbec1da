//! The result merger: deterministic ordering of fetched track collections.
//!
//! A fetched collection is sorted stably by the field the user's sort
//! criteria selects — title, artist or album lexicographically by code
//! point, duration numerically — reversed when the order is descending.
//! The date-added criterion is not given a comparator in the primary sort
//! step: it relies on the fetch order already being ascending by date, and
//! descending order is achieved by reversing the whole sequence afterwards.

use std::cmp::Ordering;

use vstd::prelude::*;
use vstd::string::StrSliceExecFns;

use itertools::Itertools;

use crate::data::{SortCriteria, SortOrder, Track};
use crate::error::Error;

verus! {

/// The opposite of an ordering outcome.
pub open spec fn flip_ord(o: Ordering) -> Ordering {
    match o {
        Ordering::Less => Ordering::Greater,
        Ordering::Equal => Ordering::Equal,
        Ordering::Greater => Ordering::Less,
    }
}

/// Numeric comparison as an ordering outcome.
pub open spec fn cmp_int(a: int, b: int) -> Ordering {
    if a < b {
        Ordering::Less
    } else if a > b {
        Ordering::Greater
    } else {
        Ordering::Equal
    }
}

/// Lexicographic comparison of two character sequences by code point.  A
/// proper prefix orders before its extensions; the first differing position
/// decides.  Case-sensitive: code points are never folded.
pub open spec fn cmp_chars(a: Seq<char>, b: Seq<char>) -> Ordering
    decreases a.len(),
{
    if a.len() == 0 && b.len() == 0 {
        Ordering::Equal
    } else if a.len() == 0 {
        Ordering::Less
    } else if b.len() == 0 {
        Ordering::Greater
    } else if a[0] < b[0] {
        Ordering::Less
    } else if a[0] > b[0] {
        Ordering::Greater
    } else {
        cmp_chars(a.drop_first(), b.drop_first())
    }
}

/// Comparing in the opposite direction flips the outcome.
pub proof fn lemma_cmp_chars_flip(a: Seq<char>, b: Seq<char>)
    ensures
        cmp_chars(b, a) == flip_ord(cmp_chars(a, b)),
    decreases a.len(),
{
    if a.len() > 0 && b.len() > 0 && !(a[0] < b[0]) && !(a[0] > b[0]) {
        lemma_cmp_chars_flip(a.drop_first(), b.drop_first());
    }
}

/// The lexicographic comparison chains through a middle sequence.
proof fn lemma_cmp_chars_le_trans(a: Seq<char>, b: Seq<char>, c: Seq<char>)
    requires
        cmp_chars(a, b) != Ordering::Greater,
        cmp_chars(b, c) != Ordering::Greater,
    ensures
        cmp_chars(a, c) != Ordering::Greater,
    decreases a.len(),
{
    if a.len() == 0 {
    } else {
        assert(b.len() > 0);
        assert(c.len() > 0);
        if !(a[0] < b[0]) && !(a[0] > b[0]) && !(b[0] < c[0]) && !(b[0] > c[0]) {
            lemma_cmp_chars_le_trans(a.drop_first(), b.drop_first(), c.drop_first());
        }
    }
}

/// Two character sequences compare equal exactly when they are equal.
pub proof fn lemma_cmp_chars_equal_iff(a: Seq<char>, b: Seq<char>)
    ensures
        (cmp_chars(a, b) == Ordering::Equal) <==> a == b,
    decreases a.len(),
{
    if a.len() == 0 && b.len() == 0 {
        assert(a =~= b);
    } else if a.len() == 0 || b.len() == 0 {
    } else if !(a[0] < b[0]) && !(a[0] > b[0]) {
        lemma_cmp_chars_equal_iff(a.drop_first(), b.drop_first());
        if cmp_chars(a, b) == Ordering::Equal {
            assert forall|i: int| 0 <= i < a.len() implies a[i] == b[i] by {
                if i > 0 {
                    assert(a[i] == a.drop_first()[i - 1]);
                    assert(b[i] == b.drop_first()[i - 1]);
                }
            }
            assert(a =~= b);
        } else {
            if a == b {
                assert(a.drop_first() == b.drop_first());
            }
        }
    } else {
        assert(a[0] != b[0]);
    }
}

/// Executable lexicographic comparison of two strings, by code point.
pub fn cmp_str(a: &String, b: &String) -> (r: Ordering)
    ensures
        r == cmp_chars(a@, b@),
{
    let x = a.as_str();
    let y = b.as_str();
    let xlen = x.unicode_len();
    let ylen = y.unicode_len();
    let mut i: usize = 0;
    proof {
        assert(x@.skip(0) =~= x@);
        assert(y@.skip(0) =~= y@);
    }
    loop
        invariant
            i <= xlen,
            i <= ylen,
            xlen == x@.len(),
            ylen == y@.len(),
            x@ == a@,
            y@ == b@,
            cmp_chars(a@, b@) == cmp_chars(x@.skip(i as int), y@.skip(i as int)),
        decreases xlen - i,
    {
        let ghost xs = x@.skip(i as int);
        let ghost ys = y@.skip(i as int);
        if i == xlen {
            if i == ylen {
                return Ordering::Equal;
            }
            return Ordering::Less;
        }
        if i == ylen {
            return Ordering::Greater;
        }
        let cx = x.get_char(i);
        let cy = y.get_char(i);
        proof {
            assert(xs[0] == x@[i as int]);
            assert(ys[0] == y@[i as int]);
        }
        if cx < cy {
            return Ordering::Less;
        }
        if cx > cy {
            return Ordering::Greater;
        }
        proof {
            assert(xs.drop_first() =~= x@.skip(i + 1));
            assert(ys.drop_first() =~= y@.skip(i + 1));
        }
        i = i + 1;
    }
}

/// The primary comparison of two tracks under a sort criteria: the selected
/// field decides; date added is left undecided (every pair compares equal).
pub open spec fn track_key_cmp(a: Track, b: Track, criteria: SortCriteria) -> Ordering {
    match criteria {
        SortCriteria::Title => cmp_chars(a.name@, b.name@),
        SortCriteria::Artist => cmp_chars(a.artist@, b.artist@),
        SortCriteria::Album => cmp_chars(a.album@, b.album@),
        SortCriteria::Duration => cmp_int(a.duration_ms as int, b.duration_ms as int),
        SortCriteria::DateAdded => Ordering::Equal,
    }
}

/// The comparison the primary sort uses: the criteria's comparison, flipped
/// when the order is descending.
pub open spec fn track_cmp(a: Track, b: Track, criteria: SortCriteria, order: SortOrder) -> Ordering {
    if order == SortOrder::Descending {
        flip_ord(track_key_cmp(a, b, criteria))
    } else {
        track_key_cmp(a, b, criteria)
    }
}

/// Comparing two tracks in the opposite direction flips the outcome.
pub proof fn lemma_track_cmp_flip(a: Track, b: Track, criteria: SortCriteria, order: SortOrder)
    ensures
        track_cmp(b, a, criteria, order) == flip_ord(track_cmp(a, b, criteria, order)),
{
    match criteria {
        SortCriteria::Title => lemma_cmp_chars_flip(a.name@, b.name@),
        SortCriteria::Artist => lemma_cmp_chars_flip(a.artist@, b.artist@),
        SortCriteria::Album => lemma_cmp_chars_flip(a.album@, b.album@),
        SortCriteria::Duration => {},
        SortCriteria::DateAdded => {},
    }
}

/// The track comparison chains through a middle track.  Together with
/// [`lemma_track_cmp_flip`] this makes it a total preorder, which is what
/// entitles the primary sort to a deterministic, stable outcome.
pub proof fn lemma_track_cmp_transitive(
    a: Track,
    b: Track,
    c: Track,
    criteria: SortCriteria,
    order: SortOrder,
)
    requires
        track_cmp(a, b, criteria, order) != Ordering::Greater,
        track_cmp(b, c, criteria, order) != Ordering::Greater,
    ensures
        track_cmp(a, c, criteria, order) != Ordering::Greater,
{
    let descending = order == SortOrder::Descending;
    match criteria {
        SortCriteria::Title => {
            if descending {
                lemma_cmp_chars_flip(a.name@, b.name@);
                lemma_cmp_chars_flip(b.name@, c.name@);
                lemma_cmp_chars_flip(a.name@, c.name@);
                lemma_cmp_chars_le_trans(c.name@, b.name@, a.name@);
            } else {
                lemma_cmp_chars_le_trans(a.name@, b.name@, c.name@);
            }
        },
        SortCriteria::Artist => {
            if descending {
                lemma_cmp_chars_flip(a.artist@, b.artist@);
                lemma_cmp_chars_flip(b.artist@, c.artist@);
                lemma_cmp_chars_flip(a.artist@, c.artist@);
                lemma_cmp_chars_le_trans(c.artist@, b.artist@, a.artist@);
            } else {
                lemma_cmp_chars_le_trans(a.artist@, b.artist@, c.artist@);
            }
        },
        SortCriteria::Album => {
            if descending {
                lemma_cmp_chars_flip(a.album@, b.album@);
                lemma_cmp_chars_flip(b.album@, c.album@);
                lemma_cmp_chars_flip(a.album@, c.album@);
                lemma_cmp_chars_le_trans(c.album@, b.album@, a.album@);
            } else {
                lemma_cmp_chars_le_trans(a.album@, b.album@, c.album@);
            }
        },
        SortCriteria::Duration => {},
        SortCriteria::DateAdded => {},
    }
}

/// Executable comparison of two tracks, as handed to the primary sort.
pub fn compare_tracks(a: &Track, b: &Track, criteria: SortCriteria, order: SortOrder) -> (r: Ordering)
    ensures
        r == track_cmp(*a, *b, criteria, order),
{
    let primary = match criteria {
        SortCriteria::Title => cmp_str(&a.name, &b.name),
        SortCriteria::Artist => cmp_str(&a.artist, &b.artist),
        SortCriteria::Album => cmp_str(&a.album, &b.album),
        SortCriteria::Duration => {
            if a.duration_ms < b.duration_ms {
                Ordering::Less
            } else if a.duration_ms > b.duration_ms {
                Ordering::Greater
            } else {
                Ordering::Equal
            }
        },
        SortCriteria::DateAdded => Ordering::Equal,
    };
    if order == SortOrder::Descending {
        match primary {
            Ordering::Less => Ordering::Greater,
            Ordering::Equal => Ordering::Equal,
            Ordering::Greater => Ordering::Less,
        }
    } else {
        primary
    }
}

/// Where a stable sort places `x` in the already sorted sequence `s`: after
/// every element strictly below it, before every element equal to it, so
/// that elements already present and equal to `x` keep their earlier place.
pub open spec fn insert_sorted(
    x: Track,
    s: Seq<Track>,
    criteria: SortCriteria,
    order: SortOrder,
) -> Seq<Track>
    decreases s.len(),
{
    if s.len() == 0 {
        seq![x]
    } else if track_cmp(s[0], x, criteria, order) == Ordering::Less {
        seq![s[0]] + insert_sorted(x, s.drop_first(), criteria, order)
    } else {
        seq![x] + s
    }
}

/// The stable sort of a sequence under the track comparison: equal elements
/// keep their relative input order.
pub open spec fn stable_sorted(s: Seq<Track>, criteria: SortCriteria, order: SortOrder) -> Seq<Track>
    decreases s.len(),
{
    if s.len() == 0 {
        s
    } else {
        insert_sorted(s[0], stable_sorted(s.drop_first(), criteria, order), criteria, order)
    }
}

/// The merger's whole ordering: the stable primary sort, then — only for
/// date added, descending — a reversal of the entire sequence, which turns
/// the fetch order (ascending by date) around.
pub open spec fn sorted_by_pref(s: Seq<Track>, criteria: SortCriteria, order: SortOrder) -> Seq<Track> {
    let primary = stable_sorted(s, criteria, order);
    if criteria == SortCriteria::DateAdded && order == SortOrder::Descending {
        primary.reverse()
    } else {
        primary
    }
}

/// Whether a sequence is in order under the track comparison: every element
/// sits no higher than its successor.
pub open spec fn sorted_under(s: Seq<Track>, criteria: SortCriteria, order: SortOrder) -> bool
    decreases s.len(),
{
    s.len() <= 1 || (track_cmp(s[0], s[1], criteria, order) != Ordering::Greater && sorted_under(
        s.drop_first(),
        criteria,
        order,
    ))
}

proof fn lemma_insert_sorted_len(x: Track, s: Seq<Track>, criteria: SortCriteria, order: SortOrder)
    ensures
        insert_sorted(x, s, criteria, order).len() == s.len() + 1,
    decreases s.len(),
{
    if s.len() > 0 && track_cmp(s[0], x, criteria, order) == Ordering::Less {
        lemma_insert_sorted_len(x, s.drop_first(), criteria, order);
    }
}

proof fn lemma_insert_sorted_head(x: Track, s: Seq<Track>, criteria: SortCriteria, order: SortOrder)
    ensures
        ({
            let r = insert_sorted(x, s, criteria, order);
            r[0] == x || (s.len() > 0 && r[0] == s[0])
        }),
{
}

proof fn lemma_insert_preserves_sorted(
    x: Track,
    s: Seq<Track>,
    criteria: SortCriteria,
    order: SortOrder,
)
    requires
        sorted_under(s, criteria, order),
    ensures
        sorted_under(insert_sorted(x, s, criteria, order), criteria, order),
    decreases s.len(),
{
    let r = insert_sorted(x, s, criteria, order);
    if s.len() == 0 {
    } else if track_cmp(s[0], x, criteria, order) == Ordering::Less {
        let rest = s.drop_first();
        let t = insert_sorted(x, rest, criteria, order);
        lemma_insert_preserves_sorted(x, rest, criteria, order);
        lemma_insert_sorted_len(x, rest, criteria, order);
        lemma_insert_sorted_head(x, rest, criteria, order);
        assert(r == seq![s[0]] + t);
        assert(r[0] == s[0]);
        assert(r[1] == t[0]);
        if t[0] == x {
            assert(track_cmp(r[0], r[1], criteria, order) != Ordering::Greater);
        } else {
            assert(t[0] == rest[0]);
            assert(rest[0] == s[1]);
            assert(track_cmp(r[0], r[1], criteria, order) != Ordering::Greater);
        }
        assert(r.drop_first() =~= t);
    } else {
        lemma_track_cmp_flip(s[0], x, criteria, order);
        assert(r == seq![x] + s);
        assert(r[0] == x);
        assert(r[1] == s[0]);
        assert(r.drop_first() =~= s);
    }
}

/// The primary sort leaves its result in order under the track comparison,
/// with the same length as its input.
pub proof fn lemma_stable_sorted_sorts(s: Seq<Track>, criteria: SortCriteria, order: SortOrder)
    ensures
        sorted_under(stable_sorted(s, criteria, order), criteria, order),
        stable_sorted(s, criteria, order).len() == s.len(),
    decreases s.len(),
{
    if s.len() > 0 {
        lemma_stable_sorted_sorts(s.drop_first(), criteria, order);
        lemma_insert_preserves_sorted(
            s[0],
            stable_sorted(s.drop_first(), criteria, order),
            criteria,
            order,
        );
        lemma_insert_sorted_len(
            s[0],
            stable_sorted(s.drop_first(), criteria, order),
            criteria,
            order,
        );
    }
}

/// A sequence already in order is a fixed point of the primary sort.
#[verifier::rlimit(50)]
pub proof fn lemma_sorted_fixed_point(s: Seq<Track>, criteria: SortCriteria, order: SortOrder)
    requires
        sorted_under(s, criteria, order),
    ensures
        stable_sorted(s, criteria, order) == s,
    decreases s.len(),
{
    if s.len() > 0 {
        lemma_sorted_fixed_point(s.drop_first(), criteria, order);
        if s.len() == 1 {
            assert(stable_sorted(s, criteria, order) =~= s);
        } else {
            lemma_track_cmp_flip(s[0], s[1], criteria, order);
            assert(s.drop_first()[0] == s[1]);
            assert(track_cmp(s.drop_first()[0], s[0], criteria, order) != Ordering::Less);
            assert(stable_sorted(s, criteria, order) == seq![s[0]] + s.drop_first());
            assert(seq![s[0]] + s.drop_first() =~= s);
        }
    }
}

/// Law: sorting is idempotent — feeding the merger's output back to it
/// returns the output unchanged.  Excluded is the one combination for which
/// the merger reverses the whole sequence after the primary sort, date added
/// descending, where a second pass reverses the sequence again.
pub proof fn lemma_sort_idempotent(s: Seq<Track>, criteria: SortCriteria, order: SortOrder)
    requires
        !(criteria == SortCriteria::DateAdded && order == SortOrder::Descending),
    ensures
        sorted_by_pref(sorted_by_pref(s, criteria, order), criteria, order) == sorted_by_pref(
            s,
            criteria,
            order,
        ),
{
    lemma_stable_sorted_sorts(s, criteria, order);
    lemma_sorted_fixed_point(stable_sorted(s, criteria, order), criteria, order);
}

/// The tracks whose sort key under the given criteria ties with the probe
/// track's key.  For the title criterion, tying means the titles are
/// identical character sequences — case is never folded.
pub open spec fn ties_with(probe: Track, criteria: SortCriteria) -> spec_fn(Track) -> bool {
    |t: Track| track_key_cmp(t, probe, criteria) == Ordering::Equal
}

proof fn lemma_tie_transfers(a: Track, b: Track, probe: Track, criteria: SortCriteria)
    requires
        track_key_cmp(a, probe, criteria) == Ordering::Equal,
        track_key_cmp(b, probe, criteria) == Ordering::Equal,
    ensures
        track_key_cmp(a, b, criteria) == Ordering::Equal,
{
    match criteria {
        SortCriteria::Title => {
            lemma_cmp_chars_equal_iff(a.name@, probe.name@);
            lemma_cmp_chars_equal_iff(b.name@, probe.name@);
            lemma_cmp_chars_equal_iff(a.name@, b.name@);
        },
        SortCriteria::Artist => {
            lemma_cmp_chars_equal_iff(a.artist@, probe.artist@);
            lemma_cmp_chars_equal_iff(b.artist@, probe.artist@);
            lemma_cmp_chars_equal_iff(a.artist@, b.artist@);
        },
        SortCriteria::Album => {
            lemma_cmp_chars_equal_iff(a.album@, probe.album@);
            lemma_cmp_chars_equal_iff(b.album@, probe.album@);
            lemma_cmp_chars_equal_iff(a.album@, b.album@);
        },
        SortCriteria::Duration => {},
        SortCriteria::DateAdded => {},
    }
}

proof fn lemma_singleton_filter(x: Track, pred: spec_fn(Track) -> bool)
    ensures
        pred(x) ==> seq![x].filter(pred) == seq![x],
        !pred(x) ==> seq![x].filter(pred) == Seq::<Track>::empty(),
{
    reveal_with_fuel(Seq::filter, 2);
    assert(seq![x].drop_last() =~= Seq::<Track>::empty());
}

proof fn lemma_insert_filter_ties(
    x: Track,
    s: Seq<Track>,
    criteria: SortCriteria,
    order: SortOrder,
    probe: Track,
)
    ensures
        track_key_cmp(x, probe, criteria) == Ordering::Equal ==> insert_sorted(
            x,
            s,
            criteria,
            order,
        ).filter(ties_with(probe, criteria)) == seq![x] + s.filter(ties_with(probe, criteria)),
        track_key_cmp(x, probe, criteria) != Ordering::Equal ==> insert_sorted(
            x,
            s,
            criteria,
            order,
        ).filter(ties_with(probe, criteria)) == s.filter(ties_with(probe, criteria)),
    decreases s.len(),
{
    let pred = ties_with(probe, criteria);
    let r = insert_sorted(x, s, criteria, order);
    lemma_singleton_filter(x, pred);
    if s.len() == 0 {
        assert(s.filter(pred) =~= Seq::<Track>::empty());
        if pred(x) {
            assert(r.filter(pred) =~= seq![x] + s.filter(pred));
        }
    } else if track_cmp(s[0], x, criteria, order) == Ordering::Less {
        lemma_insert_filter_ties(x, s.drop_first(), criteria, order, probe);
        lemma_singleton_filter(s[0], pred);
        let t = insert_sorted(x, s.drop_first(), criteria, order);
        Seq::filter_distributes_over_add(seq![s[0]], t, pred);
        assert(s =~= seq![s[0]] + s.drop_first());
        Seq::filter_distributes_over_add(seq![s[0]], s.drop_first(), pred);
        if pred(x) {
            // An element strictly below `x` cannot tie with the probe too.
            if pred(s[0]) {
                lemma_tie_transfers(s[0], x, probe, criteria);
                assert(false);
            }
            assert(r.filter(pred) =~= seq![x] + s.filter(pred));
        } else {
            assert(r.filter(pred) =~= s.filter(pred));
        }
    } else {
        Seq::filter_distributes_over_add(seq![x], s, pred);
    }
}

proof fn lemma_stable_sorted_ties_stable(
    s: Seq<Track>,
    criteria: SortCriteria,
    order: SortOrder,
    probe: Track,
)
    ensures
        stable_sorted(s, criteria, order).filter(ties_with(probe, criteria)) == s.filter(
            ties_with(probe, criteria),
        ),
    decreases s.len(),
{
    let pred = ties_with(probe, criteria);
    if s.len() > 0 {
        let t = stable_sorted(s.drop_first(), criteria, order);
        lemma_stable_sorted_ties_stable(s.drop_first(), criteria, order, probe);
        lemma_insert_filter_ties(s[0], t, criteria, order, probe);
        lemma_singleton_filter(s[0], pred);
        assert(s =~= seq![s[0]] + s.drop_first());
        Seq::filter_distributes_over_add(seq![s[0]], s.drop_first(), pred);
    }
}

/// Law: the sort is stable with respect to ties — among the tracks whose
/// sort key ties with any probe track's key, the merger keeps the relative
/// input order, under every criterion and direction.  Excluded is date
/// added descending, whose post-hoc reversal turns ties around by design.
pub proof fn lemma_sort_is_stable(
    s: Seq<Track>,
    criteria: SortCriteria,
    order: SortOrder,
    probe: Track,
)
    requires
        !(criteria == SortCriteria::DateAdded && order == SortOrder::Descending),
    ensures
        sorted_by_pref(s, criteria, order).filter(ties_with(probe, criteria)) == s.filter(
            ties_with(probe, criteria),
        ),
{
    lemma_stable_sorted_ties_stable(s, criteria, order, probe);
}

/// Relies on `itertools::Itertools::sorted_by`: it collects the elements and
/// sorts them with `slice::sort_by`, documented stable.  For the track
/// comparison — a total preorder, by [`lemma_track_cmp_flip`] and
/// [`lemma_track_cmp_transitive`] — the stable sort by it is exactly
/// [`stable_sorted`].
#[verifier::external_body]
fn sorted_by_comparator(tracks: Vec<Track>, criteria: SortCriteria, order: SortOrder) -> (r: Vec<
    Track,
>)
    ensures
        r@ == stable_sorted(tracks@, criteria, order),
{
    tracks.into_iter().sorted_by(|a, b| compare_tracks(a, b, criteria, order)).collect()
}

/// The given tracks in reverse order.
fn reverse_tracks(tracks: Vec<Track>) -> (r: Vec<Track>)
    ensures
        r@ == tracks@.reverse(),
{
    let mut r: Vec<Track> = Vec::new();
    let mut i: usize = tracks.len();
    while i > 0
        invariant
            i <= tracks@.len(),
            r@ =~= tracks@.skip(i as int).reverse(),
        decreases i,
    {
        i = i - 1;
        r.push(tracks[i].duplicate());
        proof {
            assert(r@ =~= tracks@.skip(i as int).reverse());
        }
    }
    proof {
        assert(tracks@.skip(0) =~= tracks@);
        assert(r@ =~= tracks@.reverse());
    }
    r
}

/// Orders a fetched track collection for display: the stable primary sort by
/// the selected criteria and order, and the post-hoc reversal for date
/// added, descending.
pub fn sort_tracks(tracks: Vec<Track>, criteria: SortCriteria, order: SortOrder) -> (r: Vec<Track>)
    ensures
        r@ == sorted_by_pref(tracks@, criteria, order),
{
    let primary = sorted_by_comparator(tracks, criteria, order);
    if criteria == SortCriteria::DateAdded && order == SortOrder::Descending {
        reverse_tracks(primary)
    } else {
        primary
    }
}

/// Merges a fetch outcome with the sort preference: a successful fetch is
/// sorted; a failed one contributes an empty sequence to the sort step while
/// the error itself is preserved and reported alongside.
pub fn merge_fetch(
    result: Result<Vec<Track>, Error>,
    criteria: SortCriteria,
    order: SortOrder,
) -> (r: (Vec<Track>, Option<Error>))
    ensures
        result is Ok ==> r.0@ == sorted_by_pref(result->Ok_0@, criteria, order) && r.1 is None,
        result is Err ==> r.0@ == Seq::<Track>::empty() && r.1 == Some(result->Err_0),
{
    match result {
        Ok(tracks) => (sort_tracks(tracks, criteria, order), None),
        Err(e) => (Vec::new(), Some(e)),
    }
}

} // verus!
