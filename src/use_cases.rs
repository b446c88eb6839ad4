use vstd::prelude::*;

use crate::brawler::BrawlerModel;
use crate::brawler_store::BrawlerStore;
use crate::error::MissionError;
use crate::mission::{AddMissionModel, CrewMemberShips, EditMissionModel, MissionFilter, MissionModel, MissionEntity, model_of};
use crate::mission_statuses::MissionStatuses;
use crate::rules::{
    can_finish, can_progress, check_new_name, edit_name_outcome, ensure_no_crew, finish_allowed,
    name_is_valid, normalize_edit_name, parse_max_crew, progress_allowed, capacity_text_valid,
    decimal_value,
};
use crate::store::{
    crew_count_of, join_step, inserted, roster, roster_entry, live_mission, next_stamp, open_live, removed, restatused,
    select_newest_first, MissionStore, MAX_MISSIONS,
};

verus! {

/// `n` is `m` after an edit that sets the chief, the name when one is given,
/// and the description when one is given.
pub open spec fn edit_applied(
    m: MissionEntity,
    n: MissionEntity,
    name: Option<Seq<char>>,
    description: Option<String>,
    chief_id: i32,
    now: i64,
) -> bool {
    &&& n.name@ == match name {
        Some(s) => s,
        None => m.name@,
    }
    &&& n == MissionEntity {
        name: n.name,
        chief_id,
        description: match description {
            Some(d) => Some(d),
            None => m.description,
        },
        updated_at: now,
        ..m
    }
}

/// `after` is `before` with only the record of `mission_id` changed to a
/// record with status `status`.
pub open spec fn status_written(
    before: Seq<MissionEntity>,
    after: Seq<MissionEntity>,
    mission_id: i32,
    status: MissionStatuses,
    now: i64,
) -> bool {
    &&& 1 <= mission_id <= before.len()
    &&& after.len() == before.len()
    &&& forall|i: int| 0 <= i < before.len() && i != mission_id - 1 ==> after[i] == before[i]
    &&& restatused(before[mission_id - 1], after[mission_id - 1], status, now)
}

/// Read side: missions with their live crew counts.
pub struct MissionViewingUseCase {}

impl MissionViewingUseCase {
    pub fn new() -> (r: MissionViewingUseCase) {
        MissionViewingUseCase {}
    }

    /// The non-deleted mission with its crew count.
    pub fn get_one(&self, store: &MissionStore, mission_id: i32) -> (r: Result<MissionModel, MissionError>)
        requires
            store.wf(),
        ensures
            match live_mission(store.missions(), mission_id) {
                Some(m) => r == Ok::<MissionModel, MissionError>(
                    model_of(m, crew_count_of(store.crew(), mission_id) as i64),
                ),
                None => r == Err::<MissionModel, MissionError>(MissionError::NotFound),
            },
    {
        let crew_count = store.crew_counting(mission_id);
        let m = store.get_one(mission_id)?;
        Ok(m.to_model(crew_count))
    }

    /// The non-deleted missions accepted by the filter, newest first, each
    /// with its crew count.
    pub fn get_all(&self, store: &MissionStore, filter: &MissionFilter) -> (r: Vec<MissionModel>)
        requires
            store.wf(),
        ensures
            r@.len() == select_newest_first(store.missions(), *filter).len(),
            forall|i: int|
                0 <= i < r@.len() ==> {
                    let m = #[trigger] select_newest_first(store.missions(), *filter)[i];
                    r@[i] == model_of(m, crew_count_of(store.crew(), m.id) as i64)
                },
    {
        let models = store.get_all(filter);
        let mut out: Vec<MissionModel> = Vec::new();
        let mut i: usize = 0;
        while i < models.len()
            invariant
                store.wf(),
                models@ == select_newest_first(store.missions(), *filter),
                i <= models@.len(),
                out@.len() == i,
                forall|j: int|
                    0 <= j < i ==> {
                        let m = #[trigger] models@[j];
                        out@[j] == model_of(m, crew_count_of(store.crew(), m.id) as i64)
                    },
            decreases models@.len() - i,
        {
            let crew_count = store.crew_counting(models[i].id);
            out.push(models[i].to_model(crew_count));
            i += 1;
        }
        out
    }
}

impl MissionViewingUseCase {
    /// The crew roster of a mission with each member's success and join counts.
    pub fn get_crew(&self, store: &MissionStore, brawlers: &BrawlerStore, mission_id: i32) -> (r: Vec<
        BrawlerModel,
    >)
        requires
            store.wf(),
            brawlers.wf(),
        ensures
            r@.len() == roster(store.crew(), brawlers.brawlers(), mission_id).len(),
            forall|i: int|
                0 <= i < r@.len() ==> roster_entry(
                    #[trigger] r@[i],
                    roster(store.crew(), brawlers.brawlers(), mission_id)[i],
                    store.crew(),
                    store.missions(),
                ),
    {
        store.crew_roster(brawlers, mission_id)
    }
}

/// Create, edit and soft-delete missions; edits and removals are gated by
/// the crew count.
pub struct MissionManagementUseCase {}

impl MissionManagementUseCase {
    pub fn new() -> (r: MissionManagementUseCase) {
        MissionManagementUseCase {}
    }

    /// Creates an `Open` mission owned by `chief_id`.
    pub fn add(&self, store: &mut MissionStore, chief_id: i32, model: AddMissionModel, now: i64) -> (r:
        Result<i32, MissionError>)
        requires
            old(store).wf(),
        ensures
            final(store).wf(),
            final(store).crew() == old(store).crew(),
            !name_is_valid(model.name@) ==> r == Err::<i32, MissionError>(MissionError::ValidationError)
                && final(store).missions() == old(store).missions(),
            name_is_valid(model.name@) && old(store).missions().len() >= MAX_MISSIONS ==> r == Err::<
                i32,
                MissionError,
            >(MissionError::Unavailable) && final(store).missions() == old(store).missions(),
            name_is_valid(model.name@) && old(store).missions().len() < MAX_MISSIONS ==> {
                let id = old(store).missions().len() + 1;
                let m = final(store).missions().last();
                &&& r == Ok::<i32, MissionError>(id as i32)
                &&& final(store).missions().len() == id
                &&& final(store).missions().drop_last() == old(store).missions()
                &&& m.id == id
                &&& m.chief_id == chief_id
                &&& m.name == model.name
                &&& m.description == model.description
                &&& m.status@ == crate::mission_statuses::status_text(MissionStatuses::Open)
                &&& m.created_at == next_stamp(old(store).missions(), now)
                &&& m.deleted_at is None
            },
    {
        check_new_name(model.name.as_str())?;
        let entity = model.to_entity(chief_id);
        proof {
            crate::mission_statuses::lemma_status_text_round_trip(MissionStatuses::Open, entity.status@);
        }
        let r = store.add(entity, now);
        proof {
            if r is Ok {
                assert(final(store).missions().drop_last() =~= old(store).missions());
            }
        }
        r
    }

    /// Edits a mission's name and description while it is `Open` without crew.
    pub fn edit(
        &self,
        store: &mut MissionStore,
        mission_id: i32,
        chief_id: i32,
        model: EditMissionModel,
        now: i64,
    ) -> (r: Result<i32, MissionError>)
        requires
            old(store).wf(),
        ensures
            final(store).wf(),
            final(store).crew() == old(store).crew(),
            match edit_name_outcome(model.name) {
                Err(e) => r == Err::<i32, MissionError>(e) && final(store).missions() == old(
                    store,
                ).missions(),
                Ok(name) => if crew_count_of(old(store).crew(), mission_id) > 0 {
                    r == Err::<i32, MissionError>(MissionError::Conflict) && final(store).missions()
                        == old(store).missions()
                } else if !open_live(old(store).missions(), mission_id) {
                    r == Err::<i32, MissionError>(MissionError::NotFound) && final(store).missions()
                        == old(store).missions()
                } else {
                    &&& r == Ok::<i32, MissionError>(mission_id)
                    &&& final(store).missions().len() == old(store).missions().len()
                    &&& forall|i: int|
                        0 <= i < old(store).missions().len() && i != mission_id - 1
                            ==> final(store).missions()[i] == old(store).missions()[i]
                    &&& edit_applied(
                        old(store).missions()[mission_id - 1],
                        final(store).missions()[mission_id - 1],
                        name,
                        model.description,
                        chief_id,
                        now,
                    )
                },
            },
    {
        let description = model.description;
        let name = normalize_edit_name(model.name)?;
        let crew_count = store.crew_counting(mission_id);
        ensure_no_crew(crew_count)?;
        let model = EditMissionModel { name, description };
        let entity = model.to_entity(chief_id);
        store.edit(mission_id, entity, now)
    }

    /// Soft-deletes a mission while it is `Open` without crew; the remover
    /// becomes its chief.
    pub fn remove(&self, store: &mut MissionStore, mission_id: i32, chief_id: i32, now: i64) -> (r:
        Result<(), MissionError>)
        requires
            old(store).wf(),
        ensures
            final(store).wf(),
            final(store).crew() == old(store).crew(),
            if crew_count_of(old(store).crew(), mission_id) > 0 {
                r == Err::<(), MissionError>(MissionError::Conflict) && final(store).missions() == old(
                    store,
                ).missions()
            } else if !open_live(old(store).missions(), mission_id) {
                r == Err::<(), MissionError>(MissionError::NotFound) && final(store).missions() == old(
                    store,
                ).missions()
            } else {
                r is Ok && final(store).missions() == old(store).missions().update(
                    mission_id - 1,
                    removed(old(store).missions()[mission_id - 1], chief_id, now),
                )
            },
    {
        let crew_count = store.crew_counting(mission_id);
        ensure_no_crew(crew_count)?;
        store.remove(mission_id, chief_id, now)
    }
}

/// Drives the status state machine: `Open`/`Failed` to `InProgress`, then
/// `InProgress` to `Completed` or `Failed`.
pub struct MissionOperationUseCase {
    pub max_crew_per_mission: i64,
}

impl MissionOperationUseCase {
    pub fn new(max_crew_per_mission: i64) -> (r: MissionOperationUseCase)
        ensures
            r.max_crew_per_mission == max_crew_per_mission,
    {
        MissionOperationUseCase { max_crew_per_mission }
    }

    /// Builds the service from the configured capacity text, refusing a
    /// missing or malformed setting.
    pub fn from_config(max_crew_text: Option<&str>) -> (r: Result<MissionOperationUseCase, MissionError>)
        ensures
            match max_crew_text {
                None => r == Err::<MissionOperationUseCase, MissionError>(MissionError::Unavailable),
                Some(t) => match r {
                    Ok(u) => capacity_text_valid(t@) && u.max_crew_per_mission == decimal_value(t@),
                    Err(e) => !capacity_text_valid(t@) && e == MissionError::Unavailable,
                },
            },
    {
        match max_crew_text {
            None => Err(MissionError::Unavailable),
            Some(t) => {
                let max = parse_max_crew(t)?;
                Ok(MissionOperationUseCase::new(max))
            },
        }
    }

    /// Moves a mission to `InProgress`.
    pub fn in_progress(&self, store: &mut MissionStore, mission_id: i32, chief_id: i32, now: i64) -> (r:
        Result<i32, MissionError>)
        requires
            old(store).wf(),
        ensures
            final(store).wf(),
            final(store).crew() == old(store).crew(),
            match live_mission(old(store).missions(), mission_id) {
                None => r == Err::<i32, MissionError>(MissionError::NotFound) && final(store).missions()
                    == old(store).missions(),
                Some(m) => if progress_allowed(
                    m,
                    crew_count_of(old(store).crew(), mission_id) as i64,
                    self.max_crew_per_mission,
                    chief_id,
                ) {
                    r == Ok::<i32, MissionError>(mission_id) && status_written(
                        old(store).missions(),
                        final(store).missions(),
                        mission_id,
                        MissionStatuses::InProgress,
                        now,
                    )
                } else {
                    r == Err::<i32, MissionError>(MissionError::InvalidTransition)
                        && final(store).missions() == old(store).missions()
                },
            },
    {
        let mission = store.get_one(mission_id)?;
        let crew_count = store.crew_counting(mission_id);
        if !can_progress(&mission, crew_count, self.max_crew_per_mission, chief_id) {
            return Err(MissionError::InvalidTransition);
        }
        store.set_status(mission_id, chief_id, MissionStatuses::InProgress, now)
    }

    fn finish(
        &self,
        store: &mut MissionStore,
        mission_id: i32,
        chief_id: i32,
        status: MissionStatuses,
        now: i64,
    ) -> (r: Result<i32, MissionError>)
        requires
            old(store).wf(),
        ensures
            final(store).wf(),
            final(store).crew() == old(store).crew(),
            match live_mission(old(store).missions(), mission_id) {
                None => r == Err::<i32, MissionError>(MissionError::NotFound) && final(store).missions()
                    == old(store).missions(),
                Some(m) => if finish_allowed(m, chief_id) {
                    r == Ok::<i32, MissionError>(mission_id) && status_written(
                        old(store).missions(),
                        final(store).missions(),
                        mission_id,
                        status,
                        now,
                    )
                } else {
                    r == Err::<i32, MissionError>(MissionError::InvalidTransition)
                        && final(store).missions() == old(store).missions()
                },
            },
    {
        let mission = store.get_one(mission_id)?;
        if !can_finish(&mission, chief_id) {
            return Err(MissionError::InvalidTransition);
        }
        store.set_status(mission_id, chief_id, status, now)
    }

    /// Moves an `InProgress` mission to `Completed`.
    pub fn to_completed(&self, store: &mut MissionStore, mission_id: i32, chief_id: i32, now: i64) -> (r:
        Result<i32, MissionError>)
        requires
            old(store).wf(),
        ensures
            final(store).wf(),
            final(store).crew() == old(store).crew(),
            match live_mission(old(store).missions(), mission_id) {
                None => r == Err::<i32, MissionError>(MissionError::NotFound) && final(store).missions()
                    == old(store).missions(),
                Some(m) => if finish_allowed(m, chief_id) {
                    r == Ok::<i32, MissionError>(mission_id) && status_written(
                        old(store).missions(),
                        final(store).missions(),
                        mission_id,
                        MissionStatuses::Completed,
                        now,
                    )
                } else {
                    r == Err::<i32, MissionError>(MissionError::InvalidTransition)
                        && final(store).missions() == old(store).missions()
                },
            },
    {
        self.finish(store, mission_id, chief_id, MissionStatuses::Completed, now)
    }

    /// Moves an `InProgress` mission to `Failed`.
    pub fn to_failed(&self, store: &mut MissionStore, mission_id: i32, chief_id: i32, now: i64) -> (r:
        Result<i32, MissionError>)
        requires
            old(store).wf(),
        ensures
            final(store).wf(),
            final(store).crew() == old(store).crew(),
            match live_mission(old(store).missions(), mission_id) {
                None => r == Err::<i32, MissionError>(MissionError::NotFound) && final(store).missions()
                    == old(store).missions(),
                Some(m) => if finish_allowed(m, chief_id) {
                    r == Ok::<i32, MissionError>(mission_id) && status_written(
                        old(store).missions(),
                        final(store).missions(),
                        mission_id,
                        MissionStatuses::Failed,
                        now,
                    )
                } else {
                    r == Err::<i32, MissionError>(MissionError::InvalidTransition)
                        && final(store).missions() == old(store).missions()
                },
            },
    {
        self.finish(store, mission_id, chief_id, MissionStatuses::Failed, now)
    }
}

/// Joining and leaving a mission's crew.
pub struct CrewOperationUseCase {}

impl CrewOperationUseCase {
    pub fn new() -> (r: CrewOperationUseCase) {
        CrewOperationUseCase {}
    }

    /// Adds the brawler to the mission's crew; joining twice is a `Conflict`.
    pub fn join(&self, store: &mut MissionStore, brawler_id: i32, mission_id: i32) -> (r: Result<
        (),
        MissionError,
    >)
        requires
            old(store).wf(),
        ensures
            final(store).wf(),
            final(store).missions() == old(store).missions(),
            join_step(old(store).crew(), CrewMemberShips { brawler_id, mission_id }, r, final(store).crew()),
    {
        store.join(CrewMemberShips { brawler_id, mission_id })
    }

    /// Removes the brawler from the mission's crew; a non-member is left alone.
    pub fn leave(&self, store: &mut MissionStore, brawler_id: i32, mission_id: i32) -> (r: Result<
        (),
        MissionError,
    >)
        requires
            old(store).wf(),
        ensures
            final(store).wf(),
            r is Ok,
            final(store).missions() == old(store).missions(),
            ({
                let pair = CrewMemberShips { brawler_id, mission_id };
                &&& !final(store).crew().contains(pair)
                &&& !old(store).crew().contains(pair) ==> final(store).crew() == old(store).crew()
                &&& old(store).crew().contains(pair) ==> exists|i: int|
                    0 <= i < old(store).crew().len() && old(store).crew()[i] == pair
                        && final(store).crew() == old(store).crew().remove(i)
            }),
    {
        store.leave(CrewMemberShips { brawler_id, mission_id })
    }
}

} // verus!
