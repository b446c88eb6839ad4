use brawler_missions::error::MissionError;
use brawler_missions::mission::{AddMissionEntity, AddMissionModel, EditMissionModel, MissionFilter};
use brawler_missions::mission_statuses::MissionStatuses;
use brawler_missions::store::MissionStore;
use brawler_missions::use_cases::{
    CrewOperationUseCase, MissionManagementUseCase, MissionOperationUseCase, MissionViewingUseCase,
};

fn add_mission(store: &mut MissionStore, chief: i32, name: &str, now: i64) -> i32 {
    MissionManagementUseCase::new()
        .add(
            store,
            chief,
            AddMissionModel { name: name.to_string(), description: None },
            now,
        )
        .unwrap()
}

fn status_of(store: &MissionStore, id: i32) -> String {
    MissionViewingUseCase::new().get_one(store, id).unwrap().status
}

fn set_status_directly(store: &mut MissionStore, id: i32, chief: i32, status: MissionStatuses) {
    store.set_status(id, chief, status, 500).unwrap();
}

#[test]
fn rescue_op_lifecycle() {
    let mut store = MissionStore::new();
    let viewing = MissionViewingUseCase::new();
    let crew = CrewOperationUseCase::new();
    let ops = MissionOperationUseCase::new(5);

    let id = add_mission(&mut store, 1, "Rescue Op", 100);
    let m = viewing.get_one(&store, id).unwrap();
    assert_eq!(m.status, "Open");
    assert_eq!(m.crew_count, 0);
    assert_eq!(m.chief_id, 1);
    assert_eq!(m.name, "Rescue Op");

    crew.join(&mut store, 2, id).unwrap();
    assert_eq!(viewing.get_one(&store, id).unwrap().crew_count, 1);

    assert_eq!(ops.in_progress(&mut store, id, 1, 200), Ok(id));
    assert_eq!(status_of(&store, id), "InProgress");

    assert_eq!(ops.to_completed(&mut store, id, 1, 300), Ok(id));
    assert_eq!(status_of(&store, id), "Completed");

    assert_eq!(ops.in_progress(&mut store, id, 1, 400), Err(MissionError::InvalidTransition));
    assert_eq!(status_of(&store, id), "Completed");
}

#[test]
fn add_name_length() {
    let mut store = MissionStore::new();
    let mgmt = MissionManagementUseCase::new();
    let short = mgmt.add(
        &mut store,
        1,
        AddMissionModel { name: "Hi".to_string(), description: None },
        10,
    );
    assert_eq!(short, Err(MissionError::ValidationError));
    let ok = mgmt.add(
        &mut store,
        1,
        AddMissionModel { name: "Help".to_string(), description: None },
        10,
    );
    assert_eq!(ok, Ok(1));
}

#[test]
fn add_name_is_measured_trimmed() {
    let mut store = MissionStore::new();
    let mgmt = MissionManagementUseCase::new();
    let padded = mgmt.add(
        &mut store,
        1,
        AddMissionModel { name: "   Hi   ".to_string(), description: None },
        10,
    );
    assert_eq!(padded, Err(MissionError::ValidationError));
    let three = mgmt.add(
        &mut store,
        1,
        AddMissionModel { name: " Abc ".to_string(), description: Some("d".to_string()) },
        10,
    );
    assert_eq!(three, Ok(1));
    let m = MissionViewingUseCase::new().get_one(&store, 1).unwrap();
    assert_eq!(m.name, " Abc ");
    assert_eq!(m.description, Some("d".to_string()));
}

#[test]
fn ids_are_sequential() {
    let mut store = MissionStore::new();
    assert_eq!(add_mission(&mut store, 1, "First", 1), 1);
    assert_eq!(add_mission(&mut store, 2, "Second", 2), 2);
    assert_eq!(add_mission(&mut store, 1, "Third", 3), 3);
}

#[test]
fn finish_requires_in_progress_and_chief() {
    let mut store = MissionStore::new();
    let ops = MissionOperationUseCase::new(5);
    let id = add_mission(&mut store, 1, "Patrol", 1);
    assert_eq!(ops.to_completed(&mut store, id, 1, 2), Err(MissionError::InvalidTransition));
    assert_eq!(ops.to_failed(&mut store, id, 1, 2), Err(MissionError::InvalidTransition));
    CrewOperationUseCase::new().join(&mut store, 7, id).unwrap();
    ops.in_progress(&mut store, id, 1, 3).unwrap();
    assert_eq!(ops.to_completed(&mut store, id, 9, 4), Err(MissionError::InvalidTransition));
    assert_eq!(ops.to_failed(&mut store, id, 9, 4), Err(MissionError::InvalidTransition));
    assert_eq!(status_of(&store, id), "InProgress");
    assert_eq!(ops.to_failed(&mut store, id, 1, 5), Ok(id));
    assert_eq!(status_of(&store, id), "Failed");
    assert_eq!(ops.to_failed(&mut store, id, 1, 6), Err(MissionError::InvalidTransition));
}

#[test]
fn failed_mission_can_progress_again() {
    let mut store = MissionStore::new();
    let ops = MissionOperationUseCase::new(3);
    let id = add_mission(&mut store, 1, "Retry", 1);
    CrewOperationUseCase::new().join(&mut store, 2, id).unwrap();
    ops.in_progress(&mut store, id, 1, 2).unwrap();
    ops.to_failed(&mut store, id, 1, 3).unwrap();
    assert_eq!(ops.in_progress(&mut store, id, 1, 4), Ok(id));
    assert_eq!(status_of(&store, id), "InProgress");
}

#[test]
fn progress_guards() {
    let mut store = MissionStore::new();
    let ops = MissionOperationUseCase::new(3);
    let crew = CrewOperationUseCase::new();
    let id = add_mission(&mut store, 1, "Convoy", 1);
    // no crew
    assert_eq!(ops.in_progress(&mut store, id, 1, 2), Err(MissionError::InvalidTransition));
    crew.join(&mut store, 2, id).unwrap();
    // not the chief
    assert_eq!(ops.in_progress(&mut store, id, 2, 2), Err(MissionError::InvalidTransition));
    crew.join(&mut store, 3, id).unwrap();
    crew.join(&mut store, 4, id).unwrap();
    // crew count equal to the ceiling
    assert_eq!(ops.in_progress(&mut store, id, 1, 2), Err(MissionError::InvalidTransition));
    assert_eq!(status_of(&store, id), "Open");
    crew.leave(&mut store, 4, id).unwrap();
    assert_eq!(ops.in_progress(&mut store, id, 1, 2), Ok(id));
    // already in progress
    assert_eq!(ops.in_progress(&mut store, id, 1, 3), Err(MissionError::InvalidTransition));
}

#[test]
fn completed_mission_cannot_change() {
    let mut store = MissionStore::new();
    let id = add_mission(&mut store, 1, "Done deal", 1);
    set_status_directly(&mut store, id, 1, MissionStatuses::Completed);
    let ops = MissionOperationUseCase::new(5);
    CrewOperationUseCase::new().join(&mut store, 2, id).unwrap();
    assert_eq!(ops.in_progress(&mut store, id, 1, 2), Err(MissionError::InvalidTransition));
    assert_eq!(ops.to_completed(&mut store, id, 1, 2), Err(MissionError::InvalidTransition));
    assert_eq!(ops.to_failed(&mut store, id, 1, 2), Err(MissionError::InvalidTransition));
}

#[test]
fn operations_on_missing_mission() {
    let mut store = MissionStore::new();
    let ops = MissionOperationUseCase::new(5);
    assert_eq!(ops.in_progress(&mut store, 1, 1, 1), Err(MissionError::NotFound));
    assert_eq!(ops.to_completed(&mut store, 0, 1, 1), Err(MissionError::NotFound));
    assert_eq!(ops.to_failed(&mut store, -3, 1, 1), Err(MissionError::NotFound));
    assert_eq!(
        MissionViewingUseCase::new().get_one(&store, 1).map(|m| m.id),
        Err(MissionError::NotFound)
    );
}

#[test]
fn edit_and_remove_refused_with_crew() {
    let mut store = MissionStore::new();
    let mgmt = MissionManagementUseCase::new();
    let id = add_mission(&mut store, 1, "Guarded", 1);
    CrewOperationUseCase::new().join(&mut store, 5, id).unwrap();
    let edit = mgmt.edit(
        &mut store,
        id,
        1,
        EditMissionModel { name: Some("Valid name".to_string()), description: None },
        2,
    );
    assert_eq!(edit, Err(MissionError::Conflict));
    assert_eq!(mgmt.remove(&mut store, id, 1, 2), Err(MissionError::Conflict));
    let m = MissionViewingUseCase::new().get_one(&store, id).unwrap();
    assert_eq!(m.name, "Guarded");
}

#[test]
fn edit_names() {
    let mut store = MissionStore::new();
    let mgmt = MissionManagementUseCase::new();
    let viewing = MissionViewingUseCase::new();
    let id = add_mission(&mut store, 1, "First draft", 1);
    // blank name: no change, description updated
    let r = mgmt.edit(
        &mut store,
        id,
        1,
        EditMissionModel { name: Some("   ".to_string()), description: Some("new".to_string()) },
        2,
    );
    assert_eq!(r, Ok(id));
    let m = viewing.get_one(&store, id).unwrap();
    assert_eq!(m.name, "First draft");
    assert_eq!(m.description, Some("new".to_string()));
    assert_eq!(m.updated_at, 2);
    // short name: refused
    let r = mgmt.edit(
        &mut store,
        id,
        1,
        EditMissionModel { name: Some(" ab ".to_string()), description: None },
        3,
    );
    assert_eq!(r, Err(MissionError::ValidationError));
    // valid name is stored trimmed, description kept
    let r = mgmt.edit(
        &mut store,
        id,
        4,
        EditMissionModel { name: Some("  Renamed  ".to_string()), description: None },
        4,
    );
    assert_eq!(r, Ok(id));
    let m = viewing.get_one(&store, id).unwrap();
    assert_eq!(m.name, "Renamed");
    assert_eq!(m.description, Some("new".to_string()));
    assert_eq!(m.chief_id, 4);
}

#[test]
fn edit_requires_open_mission() {
    let mut store = MissionStore::new();
    let mgmt = MissionManagementUseCase::new();
    let id = add_mission(&mut store, 1, "Busy", 1);
    set_status_directly(&mut store, id, 1, MissionStatuses::InProgress);
    let r = mgmt.edit(
        &mut store,
        id,
        1,
        EditMissionModel { name: None, description: None },
        2,
    );
    assert_eq!(r, Err(MissionError::NotFound));
    assert_eq!(mgmt.remove(&mut store, id, 1, 2), Err(MissionError::NotFound));
    assert_eq!(
        mgmt.edit(&mut store, 42, 1, EditMissionModel { name: None, description: None }, 2),
        Err(MissionError::NotFound)
    );
}

#[test]
fn remove_soft_deletes() {
    let mut store = MissionStore::new();
    let mgmt = MissionManagementUseCase::new();
    let id = add_mission(&mut store, 1, "Temporary", 1);
    assert_eq!(mgmt.remove(&mut store, id, 3, 2), Ok(()));
    assert_eq!(
        MissionViewingUseCase::new().get_one(&store, id).map(|m| m.id),
        Err(MissionError::NotFound)
    );
    assert_eq!(mgmt.remove(&mut store, id, 3, 3), Err(MissionError::NotFound));
    let all = MissionViewingUseCase::new().get_all(&store, &MissionFilter::new());
    assert!(all.is_empty());
    let ops = MissionOperationUseCase::new(5);
    assert_eq!(ops.to_completed(&mut store, id, 3, 4), Err(MissionError::NotFound));
}

#[test]
fn join_twice_keeps_one_row() {
    let mut store = MissionStore::new();
    let crew = CrewOperationUseCase::new();
    let id = add_mission(&mut store, 1, "Solo", 1);
    assert_eq!(crew.join(&mut store, 2, id), Ok(()));
    assert_eq!(crew.join(&mut store, 2, id), Err(MissionError::Conflict));
    assert_eq!(store.crew_counting(id), 1);
    assert_eq!(crew.join(&mut store, 3, id), Ok(()));
    assert_eq!(store.crew_counting(id), 2);
}

#[test]
fn leave_non_member_is_noop() {
    let mut store = MissionStore::new();
    let crew = CrewOperationUseCase::new();
    let id = add_mission(&mut store, 1, "Quiet", 1);
    crew.join(&mut store, 2, id).unwrap();
    assert_eq!(crew.leave(&mut store, 9, id), Ok(()));
    assert_eq!(store.crew_counting(id), 1);
    assert_eq!(crew.leave(&mut store, 2, id), Ok(()));
    assert_eq!(store.crew_counting(id), 0);
    assert_eq!(crew.leave(&mut store, 2, id), Ok(()));
    assert_eq!(store.crew_counting(id), 0);
}

#[test]
fn crew_counts_are_per_mission() {
    let mut store = MissionStore::new();
    let crew = CrewOperationUseCase::new();
    let a = add_mission(&mut store, 1, "Alpha", 1);
    let b = add_mission(&mut store, 1, "Bravo", 2);
    crew.join(&mut store, 2, a).unwrap();
    crew.join(&mut store, 3, a).unwrap();
    crew.join(&mut store, 2, b).unwrap();
    assert_eq!(store.crew_counting(a), 2);
    assert_eq!(store.crew_counting(b), 1);
    assert_eq!(store.crew_counting(99), 0);
}

#[test]
fn filter_open_resc_newest_first() {
    let mut store = MissionStore::new();
    let ops = MissionOperationUseCase::new(5);
    let crew = CrewOperationUseCase::new();
    let mgmt = MissionManagementUseCase::new();
    let a = add_mission(&mut store, 1, "Rescue Op", 10);
    let _b = add_mission(&mut store, 1, "Patrol", 20);
    let c = add_mission(&mut store, 1, "Cat RESCUE", 30);
    let d = add_mission(&mut store, 1, "rescue busy", 40);
    let e = add_mission(&mut store, 1, "Rescue gone", 50);
    let f = add_mission(&mut store, 1, "PreSCue", 60);
    crew.join(&mut store, 2, d).unwrap();
    ops.in_progress(&mut store, d, 1, 45).unwrap();
    mgmt.remove(&mut store, e, 1, 55).unwrap();
    crew.join(&mut store, 3, c).unwrap();

    let filter = MissionFilter {
        name: Some("resc".to_string()),
        status: Some(MissionStatuses::Open),
    };
    let listed = MissionViewingUseCase::new().get_all(&store, &filter);
    let ids: Vec<i32> = listed.iter().map(|m| m.id).collect();
    assert_eq!(ids, vec![f, c, a]);
    assert_eq!(listed[1].crew_count, 1);
    assert_eq!(listed[0].crew_count, 0);

    let upper = MissionFilter { name: Some("RESC".to_string()), status: None };
    let ids: Vec<i32> = MissionViewingUseCase::new()
        .get_all(&store, &upper)
        .iter()
        .map(|m| m.id)
        .collect();
    assert_eq!(ids, vec![f, d, c, a]);
}

#[test]
fn listing_without_filter_is_newest_first() {
    let mut store = MissionStore::new();
    add_mission(&mut store, 1, "One", 30);
    add_mission(&mut store, 1, "Two", 10);
    add_mission(&mut store, 1, "Three", 40);
    let all = MissionViewingUseCase::new().get_all(&store, &MissionFilter::new());
    let ids: Vec<i32> = all.iter().map(|m| m.id).collect();
    assert_eq!(ids, vec![3, 2, 1]);
    // the store clock never runs backwards
    assert_eq!(all[1].created_at, 30);
    assert_eq!(all[0].created_at, 40);
}

#[test]
fn filter_by_status_only() {
    let mut store = MissionStore::new();
    let a = add_mission(&mut store, 1, "Alpha", 1);
    let _b = add_mission(&mut store, 1, "Bravo", 2);
    CrewOperationUseCase::new().join(&mut store, 2, a).unwrap();
    MissionOperationUseCase::new(5).in_progress(&mut store, a, 1, 3).unwrap();
    let filter = MissionFilter { name: None, status: Some(MissionStatuses::InProgress) };
    let ids: Vec<i32> = MissionViewingUseCase::new()
        .get_all(&store, &filter)
        .iter()
        .map(|m| m.id)
        .collect();
    assert_eq!(ids, vec![a]);
}

#[test]
fn store_refuses_unknown_status_text() {
    let mut store = MissionStore::new();
    let bad = AddMissionEntity {
        chief_id: 1,
        name: "Odd".to_string(),
        status: "success".to_string(),
        description: None,
    };
    assert_eq!(store.add(bad, 1), Err(MissionError::ValidationError));
    let good = AddMissionEntity {
        chief_id: 1,
        name: "Even".to_string(),
        status: "Failed".to_string(),
        description: None,
    };
    assert_eq!(store.add(good, 1), Ok(1));
    assert_eq!(status_of(&store, 1), "Failed");
}

#[test]
fn filter_open_resc_listing_example() {
    let mut store = MissionStore::new();
    let ops = MissionOperationUseCase::new(5);
    let crew = CrewOperationUseCase::new();
    let mgmt = MissionManagementUseCase::new();
    add_mission(&mut store, 1, "Rescue Op", 10);
    add_mission(&mut store, 1, "FIRE RESCUE", 20);
    let c = add_mission(&mut store, 1, "Rescue", 30);
    add_mission(&mut store, 1, "Patrol", 40);
    let e = add_mission(&mut store, 1, "rescue x", 50);
    crew.join(&mut store, 2, c).unwrap();
    ops.in_progress(&mut store, c, 1, 35).unwrap();
    mgmt.remove(&mut store, e, 1, 55).unwrap();
    let filter = MissionFilter {
        name: Some("resc".to_string()),
        status: Some(MissionStatuses::Open),
    };
    let listed = MissionViewingUseCase::new().get_all(&store, &filter);
    let names: Vec<&str> = listed.iter().map(|v| v.name.as_str()).collect();
    assert_eq!(names, vec!["FIRE RESCUE", "Rescue Op"]);
}
