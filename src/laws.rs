use vstd::prelude::*;

use crate::error::MissionError;
use crate::mission::{CrewMemberShips, MissionEntity, MissionFilter};
use crate::mission_statuses::{lemma_status_texts_distinct, status_text, MissionStatuses};
use crate::rules::{finish_allowed, progress_allowed};
use crate::store::{join_step, listed, pair_rows, pairs_unique, select_newest_first, MissionStore};

verus! {

proof fn lemma_pair_rows_unique(crew: Seq<CrewMemberShips>, pair: CrewMemberShips)
    requires
        pairs_unique(crew),
    ensures
        pair_rows(crew, pair) == if crew.contains(pair) {
            1nat
        } else {
            0nat
        },
    decreases crew.len(),
{
    if crew.len() > 0 {
        let t = crew.drop_last();
        lemma_pair_rows_unique(t, pair);
        if crew.last() == pair {
            assert(!t.contains(pair)) by {
                if t.contains(pair) {
                    let i = choose|i: int| 0 <= i < t.len() && t[i] == pair;
                    assert(crew[i] == crew[crew.len() - 1]);
                }
            }
            assert(crew.contains(pair)) by {
                assert(crew[crew.len() - 1] == pair);
            }
        } else {
            if crew.contains(pair) {
                let i = choose|i: int| 0 <= i < crew.len() && crew[i] == pair;
                assert(t[i] == pair);
            }
            if t.contains(pair) {
                let i = choose|i: int| 0 <= i < t.len() && t[i] == pair;
                assert(crew[i] == pair);
            }
        }
    }
}

/// Joining the same brawler to the same mission twice leaves exactly one
/// membership row for the pair: the second join is refused with `Conflict`
/// and changes nothing.
pub proof fn lemma_join_twice_single_row(
    c0: Seq<CrewMemberShips>,
    c1: Seq<CrewMemberShips>,
    c2: Seq<CrewMemberShips>,
    pair: CrewMemberShips,
    r1: Result<(), MissionError>,
    r2: Result<(), MissionError>,
)
    requires
        pairs_unique(c0),
        c0.len() < i32::MAX,
        join_step(c0, pair, r1, c1),
        join_step(c1, pair, r2, c2),
    ensures
        r2 == Err::<(), MissionError>(MissionError::Conflict),
        c2 == c1,
        pair_rows(c2, pair) == 1,
{
    assert(c1.contains(pair)) by {
        if r1 is Ok {
            assert(c1[c1.len() - 1] == pair);
        }
    }
    assert(pairs_unique(c1)) by {
        if r1 is Ok {
            assert forall|i: int, j: int| 0 <= i < j < c1.len() implies c1[i] != c1[j] by {
                if j == c1.len() - 1 {
                    assert(c0[i] == c1[i]);
                } else {
                    assert(c0[i] == c1[i] && c0[j] == c1[j]);
                }
            }
        }
    }
    lemma_pair_rows_unique(c2, pair);
}

proof fn lemma_selection_members(ms: Seq<MissionEntity>, f: MissionFilter)
    ensures
        forall|i: int|
            0 <= i < select_newest_first(ms, f).len() ==> {
                let m = #[trigger] select_newest_first(ms, f)[i];
                ms.contains(m) && listed(f, m)
            },
        forall|k: int| 0 <= k < ms.len() && listed(f, ms[k]) ==> select_newest_first(ms, f).contains(ms[k]),
    decreases ms.len(),
{
    if ms.len() > 0 {
        let t = ms.drop_first();
        lemma_selection_members(t, f);
        let sel = select_newest_first(ms, f);
        let rest = select_newest_first(t, f);
        assert forall|i: int| 0 <= i < sel.len() implies {
            let m = #[trigger] sel[i];
            ms.contains(m) && listed(f, m)
        } by {
            if i < rest.len() {
                let m = rest[i];
                let k = choose|k: int| 0 <= k < t.len() && t[k] == m;
                assert(ms[k + 1] == m);
            } else {
                assert(ms[0] == sel[i]);
            }
        }
        assert forall|k: int| 0 <= k < ms.len() && listed(f, ms[k]) implies sel.contains(ms[k]) by {
            if k == 0 {
                assert(sel[sel.len() - 1] == ms[0]);
            } else {
                assert(t[k - 1] == ms[k]);
                let j = choose|j: int| 0 <= j < rest.len() && rest[j] == ms[k];
                assert(sel[j] == ms[k]);
            }
        }
    }
}

proof fn lemma_selection_ordered(ms: Seq<MissionEntity>, f: MissionFilter)
    requires
        forall|i: int, j: int| 0 <= i <= j < ms.len() ==> ms[i].created_at <= ms[j].created_at,
    ensures
        forall|i: int, j: int|
            0 <= i <= j < select_newest_first(ms, f).len() ==> select_newest_first(ms, f)[i].created_at
                >= select_newest_first(ms, f)[j].created_at,
    decreases ms.len(),
{
    if ms.len() > 0 {
        let t = ms.drop_first();
        assert forall|i: int, j: int| 0 <= i <= j < t.len() implies t[i].created_at <= t[j].created_at by {
            assert(t[i] == ms[i + 1] && t[j] == ms[j + 1]);
        }
        lemma_selection_ordered(t, f);
        lemma_selection_members(t, f);
        let sel = select_newest_first(ms, f);
        let rest = select_newest_first(t, f);
        assert forall|i: int, j: int| 0 <= i <= j < sel.len() implies sel[i].created_at >= sel[j].created_at by {
            if j >= rest.len() {
                assert(sel[j] == ms[0]);
                if i < rest.len() {
                    let m = rest[i];
                    assert(t.contains(m));
                    let k = choose|k: int| 0 <= k < t.len() && t[k] == m;
                    assert(ms[k + 1] == m);
                }
            }
        }
    }
}

/// A listing holds exactly the store's non-deleted missions that the filter
/// accepts (status equal to the filter's, name containing the filter's text
/// case-insensitively), newest first.
pub proof fn lemma_listing_exact_and_newest_first(store: MissionStore, f: MissionFilter)
    requires
        store.wf(),
    ensures
        forall|i: int|
            0 <= i < select_newest_first(store.missions(), f).len() ==> {
                let m = #[trigger] select_newest_first(store.missions(), f)[i];
                store.missions().contains(m) && listed(f, m)
            },
        forall|k: int|
            0 <= k < store.missions().len() && listed(f, store.missions()[k])
                ==> select_newest_first(store.missions(), f).contains(store.missions()[k]),
        forall|i: int, j: int|
            0 <= i <= j < select_newest_first(store.missions(), f).len() ==> select_newest_first(
                store.missions(),
                f,
            )[i].created_at >= select_newest_first(store.missions(), f)[j].created_at,
{
    lemma_selection_members(store.missions(), f);
    lemma_selection_ordered(store.missions(), f);
}

/// `Completed` is terminal: no guard of the state machine lets a completed
/// mission move, whoever asks and whatever its crew.
pub proof fn lemma_completed_is_terminal(m: MissionEntity, crew_count: i64, max_crew: i64, chief_id: i32)
    requires
        m.status@ == status_text(MissionStatuses::Completed),
    ensures
        !progress_allowed(m, crew_count, max_crew, chief_id),
        !finish_allowed(m, chief_id),
{
    lemma_status_texts_distinct();
}

/// `to_progress` leaves only from `Open` or `Failed`, and `to_completed` and
/// `to_failed` only from `InProgress`: no status is the source of both.
pub proof fn lemma_transition_sources_disjoint(m: MissionEntity, crew_count: i64, max_crew: i64, chief_id: i32)
    ensures
        !(progress_allowed(m, crew_count, max_crew, chief_id) && finish_allowed(m, chief_id)),
{
    lemma_status_texts_distinct();
}

} // verus!
