use vstd::prelude::*;

use crate::brawler::{BrawlerEntity, BrawlerModel};
use crate::brawler_store::{brawler_with_id, BrawlerStore};
use crate::error::MissionError;
use crate::mission::{
    clone_opt_string, filter_accepts, AddMissionEntity, CrewMemberShips, EditMissionEntity,
    MissionEntity, MissionFilter,
};
use crate::mission_statuses::{lemma_status_text_round_trip, status_of_text, status_text, MissionStatuses};
use crate::text::text_eq;

verus! {

/// Most missions a store holds, so that every id fits in an `i32`.
pub const MAX_MISSIONS: usize = 2147483646;

/// Rows of `crew` whose mission is `mission_id`.
pub open spec fn crew_count_of(crew: Seq<CrewMemberShips>, mission_id: i32) -> nat
    decreases crew.len(),
{
    if crew.len() == 0 {
        0
    } else {
        crew_count_of(crew.drop_last(), mission_id) + if crew.last().mission_id == mission_id {
            1nat
        } else {
            0nat
        }
    }
}

/// Rows of `crew` whose brawler is `brawler_id`: the missions they ever joined.
pub open spec fn joined_count(crew: Seq<CrewMemberShips>, brawler_id: i32) -> nat
    decreases crew.len(),
{
    if crew.len() == 0 {
        0
    } else {
        joined_count(crew.drop_last(), brawler_id) + if crew.last().brawler_id == brawler_id {
            1nat
        } else {
            0nat
        }
    }
}

/// The mission with id `mission_id` exists and is `Completed`.
pub open spec fn mission_completed(ms: Seq<MissionEntity>, mission_id: i32) -> bool {
    1 <= mission_id <= ms.len() && ms[mission_id - 1].status@ == status_text(MissionStatuses::Completed)
}

/// Rows of `crew` whose brawler is `brawler_id` and whose mission is `Completed`.
pub open spec fn success_count(crew: Seq<CrewMemberShips>, ms: Seq<MissionEntity>, brawler_id: i32) -> nat
    decreases crew.len(),
{
    if crew.len() == 0 {
        0
    } else {
        success_count(crew.drop_last(), ms, brawler_id) + if crew.last().brawler_id == brawler_id
            && mission_completed(ms, crew.last().mission_id) {
            1nat
        } else {
            0nat
        }
    }
}

/// The registered brawlers of a mission's crew rows, in row order.
pub open spec fn roster(crew: Seq<CrewMemberShips>, bs: Seq<BrawlerEntity>, mission_id: i32) -> Seq<
    BrawlerEntity,
>
    decreases crew.len(),
{
    if crew.len() == 0 {
        Seq::empty()
    } else {
        let rest = roster(crew.drop_last(), bs, mission_id);
        let c = crew.last();
        if c.mission_id == mission_id && brawler_with_id(bs, c.brawler_id) is Some {
            rest.push(brawler_with_id(bs, c.brawler_id).unwrap())
        } else {
            rest
        }
    }
}

/// `m` lists brawler `b`: its display name, its avatar or an empty text, and
/// its success and join counts.
pub open spec fn roster_entry(
    m: BrawlerModel,
    b: BrawlerEntity,
    crew: Seq<CrewMemberShips>,
    ms: Seq<MissionEntity>,
) -> bool {
    &&& m.display_name == b.display_name
    &&& m.avatar_url@ == match b.avatar_url {
        Some(u) => u@,
        None => Seq::<char>::empty(),
    }
    &&& m.mission_success_count == success_count(crew, ms, b.id)
    &&& m.mission_join_count == joined_count(crew, b.id)
}

/// Rows of `crew` equal to `pair`.
pub open spec fn pair_rows(crew: Seq<CrewMemberShips>, pair: CrewMemberShips) -> nat
    decreases crew.len(),
{
    if crew.len() == 0 {
        0
    } else {
        pair_rows(crew.drop_last(), pair) + if crew.last() == pair {
            1nat
        } else {
            0nat
        }
    }
}

/// What a join does: a new pair is appended; a pair already there is refused
/// with `Conflict`; a full table refuses with `Unavailable`.
pub open spec fn join_step(
    before: Seq<CrewMemberShips>,
    pair: CrewMemberShips,
    r: Result<(), MissionError>,
    after: Seq<CrewMemberShips>,
) -> bool {
    match r {
        Ok(_) => !before.contains(pair) && after == before.push(pair),
        Err(e) => after == before && (if before.contains(pair) {
            e == MissionError::Conflict
        } else {
            e == MissionError::Unavailable && before.len() == i32::MAX
        }),
    }
}

/// No pair occurs twice.
pub open spec fn pairs_unique(crew: Seq<CrewMemberShips>) -> bool {
    forall|i: int, j: int| 0 <= i < j < crew.len() ==> crew[i] != crew[j]
}

/// The non-deleted mission with id `id`; the store keeps the mission with id
/// `k` at position `k - 1`.
pub open spec fn live_mission(ms: Seq<MissionEntity>, id: i32) -> Option<MissionEntity> {
    if 1 <= id <= ms.len() && ms[id - 1].deleted_at is None {
        Some(ms[id - 1])
    } else {
        None
    }
}

/// A record is listed under a filter: not deleted, and accepted by the filter.
pub open spec fn listed(f: MissionFilter, m: MissionEntity) -> bool {
    m.deleted_at is None && filter_accepts(f, m)
}

/// The records of `ms` listed under `f`, last position (newest) first.
pub open spec fn select_newest_first(ms: Seq<MissionEntity>, f: MissionFilter) -> Seq<MissionEntity>
    decreases ms.len(),
{
    if ms.len() == 0 {
        Seq::empty()
    } else {
        let rest = select_newest_first(ms.drop_first(), f);
        if listed(f, ms[0]) {
            rest.push(ms[0])
        } else {
            rest
        }
    }
}

/// Creation stamp of the next record: the store's clock never runs backwards.
pub open spec fn next_stamp(ms: Seq<MissionEntity>, now: i64) -> i64 {
    if ms.len() > 0 && ms.last().created_at > now {
        ms.last().created_at
    } else {
        now
    }
}

/// The record inserted for `e` under id `id` at time `stamp`.
pub open spec fn inserted(e: AddMissionEntity, id: i32, stamp: i64) -> MissionEntity {
    MissionEntity {
        id,
        chief_id: e.chief_id,
        name: e.name,
        status: e.status,
        description: e.description,
        created_at: stamp,
        updated_at: stamp,
        deleted_at: None,
    }
}

/// The store's write predicate for edits and removals: live and `Open`.
pub open spec fn open_live(ms: Seq<MissionEntity>, id: i32) -> bool {
    &&& live_mission(ms, id) is Some
    &&& live_mission(ms, id).unwrap().status@ == status_text(MissionStatuses::Open)
}

/// The record after a change set; absent fields are kept.
pub open spec fn edited(m: MissionEntity, e: EditMissionEntity, now: i64) -> MissionEntity {
    MissionEntity {
        chief_id: e.chief_id,
        name: match e.name {
            Some(n) => n,
            None => m.name,
        },
        description: match e.description {
            Some(d) => Some(d),
            None => m.description,
        },
        updated_at: now,
        ..m
    }
}

/// The record after a soft deletion by `chief_id`.
pub open spec fn removed(m: MissionEntity, chief_id: i32, now: i64) -> MissionEntity {
    MissionEntity { chief_id, deleted_at: Some(now), updated_at: now, ..m }
}

/// `n` is `m` after its status changed to `status` at time `now`.
pub open spec fn restatused(m: MissionEntity, n: MissionEntity, status: MissionStatuses, now: i64) -> bool {
    &&& n.status@ == status_text(status)
    &&& n == MissionEntity { status: n.status, updated_at: now, ..m }
}

/// The store's write predicate for status changes: live and owned by `chief_id`.
pub open spec fn owned_live(ms: Seq<MissionEntity>, id: i32, chief_id: i32) -> bool {
    &&& live_mission(ms, id) is Some
    &&& live_mission(ms, id).unwrap().chief_id == chief_id
}

/// In-memory mission and crew store: missions are never removed physically,
/// only soft-deleted, and crew pairs are unique.
pub struct MissionStore {
    missions: Vec<MissionEntity>,
    crew: Vec<CrewMemberShips>,
}

impl MissionStore {
    pub closed spec fn missions(&self) -> Seq<MissionEntity> {
        self.missions@
    }

    pub closed spec fn crew(&self) -> Seq<CrewMemberShips> {
        self.crew@
    }

    /// Ids follow positions, every status is one of the four status texts,
    /// creation stamps never decrease, pairs are unique, and the counts fit
    /// their integer types.
    pub open spec fn wf(&self) -> bool {
        &&& forall|i: int| 0 <= i < self.missions().len() ==> #[trigger] self.missions()[i].id == i + 1
        &&& forall|i: int|
            0 <= i < self.missions().len() ==> status_of_text(#[trigger] self.missions()[i].status@) is Some
        &&& forall|i: int, j: int|
            0 <= i <= j < self.missions().len() ==> self.missions()[i].created_at
                <= self.missions()[j].created_at
        &&& self.missions().len() <= MAX_MISSIONS
        &&& pairs_unique(self.crew())
        &&& self.crew().len() <= i32::MAX
    }

    /// An empty store.
    pub fn new() -> (r: MissionStore)
        ensures
            r.wf(),
            r.missions() == Seq::<MissionEntity>::empty(),
            r.crew() == Seq::<CrewMemberShips>::empty(),
    {
        MissionStore { missions: Vec::new(), crew: Vec::new() }
    }

    /// Counts the crew rows of a mission.
    pub fn crew_counting(&self, mission_id: i32) -> (r: i64)
        requires
            self.wf(),
        ensures
            r == crew_count_of(self.crew(), mission_id),
    {
        let mut count: i64 = 0;
        let mut i: usize = 0;
        while i < self.crew.len()
            invariant
                self.wf(),
                i <= self.crew@.len(),
                count == crew_count_of(self.crew@.subrange(0, i as int), mission_id),
                count <= i,
            decreases self.crew@.len() - i,
        {
            assert(self.crew@.subrange(0, i + 1).drop_last() =~= self.crew@.subrange(0, i as int));
            if self.crew[i].mission_id == mission_id {
                count = count + 1;
            }
            i += 1;
        }
        assert(self.crew@.subrange(0, i as int) =~= self.crew@);
        count
    }

    /// The non-deleted mission with this id.
    pub fn get_one(&self, mission_id: i32) -> (r: Result<MissionEntity, MissionError>)
        requires
            self.wf(),
        ensures
            match live_mission(self.missions(), mission_id) {
                Some(m) => r == Ok::<MissionEntity, MissionError>(m),
                None => r == Err::<MissionEntity, MissionError>(MissionError::NotFound),
            },
    {
        if mission_id < 1 || mission_id as usize > self.missions.len() {
            return Err(MissionError::NotFound);
        }
        let idx = (mission_id - 1) as usize;
        let m = &self.missions[idx];
        match m.deleted_at {
            Some(_) => Err(MissionError::NotFound),
            None => Ok(m.duplicate()),
        }
    }

    /// The non-deleted missions accepted by the filter, newest first.
    pub fn get_all(&self, filter: &MissionFilter) -> (r: Vec<MissionEntity>)
        requires
            self.wf(),
        ensures
            r@ == select_newest_first(self.missions(), *filter),
    {
        let n = self.missions.len();
        let mut out: Vec<MissionEntity> = Vec::new();
        let mut k: usize = n;
        while k > 0
            invariant
                n == self.missions@.len(),
                k <= n,
                out@ == select_newest_first(self.missions@.subrange(k as int, n as int), *filter),
            decreases k,
        {
            let m = &self.missions[k - 1];
            assert(self.missions@.subrange(k - 1, n as int).drop_first() =~= self.missions@.subrange(
                k as int,
                n as int,
            ));
            assert(self.missions@.subrange(k - 1, n as int)[0] == self.missions@[k - 1]);
            if m.deleted_at.is_none() && filter.accepts(m) {
                out.push(m.duplicate());
            }
            k -= 1;
        }
        assert(self.missions@.subrange(0, n as int) =~= self.missions@);
        out
    }

    /// Inserts a mission under the next id, refusing when the store is full.
    pub fn add(&mut self, entity: AddMissionEntity, now: i64) -> (r: Result<i32, MissionError>)
        requires
            old(self).wf(),
        ensures
            final(self).wf(),
            final(self).crew() == old(self).crew(),
            r is Ok <==> status_of_text(entity.status@) is Some && old(self).missions().len()
                < MAX_MISSIONS,
            match r {
                Ok(id) => {
                    &&& id == old(self).missions().len() + 1
                    &&& final(self).missions() == old(self).missions().push(
                        inserted(entity, id, next_stamp(old(self).missions(), now)),
                    )
                },
                Err(e) => final(self).missions() == old(self).missions() && if status_of_text(
                    entity.status@,
                ) is None {
                    e == MissionError::ValidationError
                } else {
                    e == MissionError::Unavailable
                },
            },
    {
        if MissionStatuses::from_text(entity.status.as_str()).is_none() {
            return Err(MissionError::ValidationError);
        }
        let n = self.missions.len();
        if n >= MAX_MISSIONS {
            return Err(MissionError::Unavailable);
        }
        let stamp = if n > 0 && self.missions[n - 1].created_at > now {
            self.missions[n - 1].created_at
        } else {
            now
        };
        let id = (n + 1) as i32;
        let m = MissionEntity {
            id,
            chief_id: entity.chief_id,
            name: entity.name,
            status: entity.status,
            description: entity.description,
            created_at: stamp,
            updated_at: stamp,
            deleted_at: None,
        };
        self.missions.push(m);
        Ok(id)
    }

    /// Applies a change set to a live `Open` mission; `NotFound` when no row matches.
    pub fn edit(&mut self, mission_id: i32, entity: EditMissionEntity, now: i64) -> (r: Result<
        i32,
        MissionError,
    >)
        requires
            old(self).wf(),
        ensures
            final(self).wf(),
            final(self).crew() == old(self).crew(),
            r is Ok <==> open_live(old(self).missions(), mission_id),
            match r {
                Ok(id) => {
                    &&& id == mission_id
                    &&& final(self).missions() == old(self).missions().update(
                        mission_id - 1,
                        edited(old(self).missions()[mission_id - 1], entity, now),
                    )
                },
                Err(e) => e == MissionError::NotFound && final(self).missions() == old(
                    self,
                ).missions(),
            },
    {
        if mission_id < 1 || mission_id as usize > self.missions.len() {
            return Err(MissionError::NotFound);
        }
        let idx = (mission_id - 1) as usize;
        let cur = self.missions[idx].duplicate();
        if cur.deleted_at.is_some() || !text_eq(cur.status.as_str(), MissionStatuses::Open.as_str()) {
            return Err(MissionError::NotFound);
        }
        let name = match entity.name {
            Some(n) => n,
            None => cur.name,
        };
        let description = match entity.description {
            Some(d) => Some(d),
            None => cur.description,
        };
        let m = MissionEntity {
            id: cur.id,
            chief_id: entity.chief_id,
            name,
            status: cur.status,
            description,
            created_at: cur.created_at,
            updated_at: now,
            deleted_at: cur.deleted_at,
        };
        self.missions.set(idx, m);
        Ok(mission_id)
    }

    /// Soft-deletes a live `Open` mission on behalf of `chief_id`; `NotFound`
    /// when no row matches.
    pub fn remove(&mut self, mission_id: i32, chief_id: i32, now: i64) -> (r: Result<(), MissionError>)
        requires
            old(self).wf(),
        ensures
            final(self).wf(),
            final(self).crew() == old(self).crew(),
            r is Ok <==> open_live(old(self).missions(), mission_id),
            match r {
                Ok(_) => final(self).missions() == old(self).missions().update(
                    mission_id - 1,
                    removed(old(self).missions()[mission_id - 1], chief_id, now),
                ),
                Err(e) => e == MissionError::NotFound && final(self).missions() == old(
                    self,
                ).missions(),
            },
    {
        if mission_id < 1 || mission_id as usize > self.missions.len() {
            return Err(MissionError::NotFound);
        }
        let idx = (mission_id - 1) as usize;
        let cur = self.missions[idx].duplicate();
        if cur.deleted_at.is_some() || !text_eq(cur.status.as_str(), MissionStatuses::Open.as_str()) {
            return Err(MissionError::NotFound);
        }
        let m = MissionEntity { chief_id, deleted_at: Some(now), updated_at: now, ..cur };
        self.missions.set(idx, m);
        Ok(())
    }

    /// Sets the status of a live mission owned by `chief_id`; `NotFound` when
    /// no row matches.
    pub fn set_status(&mut self, mission_id: i32, chief_id: i32, status: MissionStatuses, now: i64) -> (r:
        Result<i32, MissionError>)
        requires
            old(self).wf(),
        ensures
            final(self).wf(),
            final(self).crew() == old(self).crew(),
            r is Ok <==> owned_live(old(self).missions(), mission_id, chief_id),
            match r {
                Ok(id) => {
                    &&& id == mission_id
                    &&& final(self).missions().len() == old(self).missions().len()
                    &&& forall|i: int|
                        0 <= i < old(self).missions().len() && i != mission_id - 1
                            ==> final(self).missions()[i] == old(self).missions()[i]
                    &&& restatused(
                        old(self).missions()[mission_id - 1],
                        final(self).missions()[mission_id - 1],
                        status,
                        now,
                    )
                },
                Err(e) => e == MissionError::NotFound && final(self).missions() == old(
                    self,
                ).missions(),
            },
    {
        if mission_id < 1 || mission_id as usize > self.missions.len() {
            return Err(MissionError::NotFound);
        }
        let idx = (mission_id - 1) as usize;
        let cur = self.missions[idx].duplicate();
        if cur.deleted_at.is_some() || cur.chief_id != chief_id {
            return Err(MissionError::NotFound);
        }
        let m = MissionEntity { status: status.to_string(), updated_at: now, ..cur };
        proof {
            lemma_status_text_round_trip(status, m.status@);
        }
        self.missions.set(idx, m);
        Ok(mission_id)
    }

    /// Whether the pair is a crew row.
    pub fn is_member(&self, pair: CrewMemberShips) -> (r: Option<usize>)
        ensures
            match r {
                Some(i) => i < self.crew().len() && self.crew()[i as int] == pair,
                None => !self.crew().contains(pair),
            },
    {
        let mut i: usize = 0;
        while i < self.crew.len()
            invariant
                i <= self.crew@.len(),
                forall|j: int| 0 <= j < i ==> self.crew@[j] != pair,
            decreases self.crew@.len() - i,
        {
            if self.crew[i] == pair {
                return Some(i);
            }
            i += 1;
        }
        None
    }

    /// Adds a crew row; a pair that is already there is refused with `Conflict`.
    pub fn join(&mut self, pair: CrewMemberShips) -> (r: Result<(), MissionError>)
        requires
            old(self).wf(),
        ensures
            final(self).wf(),
            final(self).missions() == old(self).missions(),
            join_step(old(self).crew(), pair, r, final(self).crew()),
    {
        if self.is_member(pair).is_some() {
            return Err(MissionError::Conflict);
        }
        if self.crew.len() >= i32::MAX as usize {
            return Err(MissionError::Unavailable);
        }
        self.crew.push(pair);
        Ok(())
    }

    /// Deletes the crew row of the pair; a pair that is not there is left alone.
    pub fn leave(&mut self, pair: CrewMemberShips) -> (r: Result<(), MissionError>)
        requires
            old(self).wf(),
        ensures
            final(self).wf(),
            r is Ok,
            final(self).missions() == old(self).missions(),
            !final(self).crew().contains(pair),
            !old(self).crew().contains(pair) ==> final(self).crew() == old(self).crew(),
            old(self).crew().contains(pair) ==> exists|i: int|
                0 <= i < old(self).crew().len() && old(self).crew()[i] == pair
                    && final(self).crew() == old(self).crew().remove(i),
    {
        match self.is_member(pair) {
            None => Ok(()),
            Some(i) => {
                let ghost before = self.crew@;
                self.crew.remove(i);
                assert forall|j: int| 0 <= j < self.crew@.len() implies self.crew@[j] != pair by {
                    if j < i {
                        assert(before[j] != before[i as int]);
                    } else {
                        assert(before[j + 1] != before[i as int]);
                    }
                }
                assert(self.crew@ == before.remove(i as int));
                Ok(())
            },
        }
    }

    /// Whether the mission with this id exists and is `Completed`.
    fn is_completed(&self, mission_id: i32) -> (r: bool)
        ensures
            r == mission_completed(self.missions(), mission_id),
    {
        if mission_id < 1 || mission_id as usize > self.missions.len() {
            return false;
        }
        text_eq(
            self.missions[(mission_id - 1) as usize].status.as_str(),
            MissionStatuses::Completed.as_str(),
        )
    }

    /// Joined and successful missions of a brawler.
    fn brawler_counts(&self, brawler_id: i32) -> (r: (i32, i32))
        requires
            self.wf(),
        ensures
            r.0 == success_count(self.crew(), self.missions(), brawler_id),
            r.1 == joined_count(self.crew(), brawler_id),
    {
        let mut success: i32 = 0;
        let mut joined: i32 = 0;
        let mut i: usize = 0;
        while i < self.crew.len()
            invariant
                self.wf(),
                i <= self.crew@.len(),
                success == success_count(self.crew@.subrange(0, i as int), self.missions@, brawler_id),
                joined == joined_count(self.crew@.subrange(0, i as int), brawler_id),
                success <= i,
                joined <= i,
            decreases self.crew@.len() - i,
        {
            assert(self.crew@.subrange(0, i + 1).drop_last() =~= self.crew@.subrange(0, i as int));
            let c = self.crew[i];
            if c.brawler_id == brawler_id {
                joined = joined + 1;
                if self.is_completed(c.mission_id) {
                    success = success + 1;
                }
            }
            i += 1;
        }
        assert(self.crew@.subrange(0, i as int) =~= self.crew@);
        (success, joined)
    }

    /// The crew roster of a mission, in row order: each registered member with
    /// display name, avatar (empty when none), successful and joined missions.
    pub fn crew_roster(&self, brawlers: &BrawlerStore, mission_id: i32) -> (r: Vec<BrawlerModel>)
        requires
            self.wf(),
            brawlers.wf(),
        ensures
            r@.len() == roster(self.crew(), brawlers.brawlers(), mission_id).len(),
            forall|i: int|
                0 <= i < r@.len() ==> roster_entry(
                    #[trigger] r@[i],
                    roster(self.crew(), brawlers.brawlers(), mission_id)[i],
                    self.crew(),
                    self.missions(),
                ),
    {
        let mut out: Vec<BrawlerModel> = Vec::new();
        let mut i: usize = 0;
        while i < self.crew.len()
            invariant
                self.wf(),
                brawlers.wf(),
                i <= self.crew@.len(),
                out@.len() == roster(self.crew@.subrange(0, i as int), brawlers.brawlers(), mission_id).len(),
                forall|j: int|
                    0 <= j < out@.len() ==> roster_entry(
                        #[trigger] out@[j],
                        roster(self.crew@.subrange(0, i as int), brawlers.brawlers(), mission_id)[j],
                        self.crew@,
                        self.missions@,
                    ),
            decreases self.crew@.len() - i,
        {
            let ghost prev = roster(self.crew@.subrange(0, i as int), brawlers.brawlers(), mission_id);
            assert(self.crew@.subrange(0, i + 1).drop_last() =~= self.crew@.subrange(0, i as int));
            let c = self.crew[i];
            if c.mission_id == mission_id {
                match brawlers.get(c.brawler_id) {
                    Some(b) => {
                        let (success, joined) = self.brawler_counts(b.id);
                        let avatar = match &b.avatar_url {
                            Some(u) => u.clone(),
                            None => String::new(),
                        };
                        out.push(
                            BrawlerModel {
                                display_name: b.display_name.clone(),
                                avatar_url: avatar,
                                mission_success_count: success,
                                mission_join_count: joined,
                            },
                        );
                    },
                    None => {},
                }
            }
            i += 1;
        }
        assert(self.crew@.subrange(0, i as int) =~= self.crew@);
        out
    }
}

} // verus!
