use brawler_missions::brawler::{i32_text, BrawlersUseCase, Claims, RegisterBrawlerModel, UploadedImg};
use brawler_missions::error::MissionError;
use brawler_missions::mission::{AddMissionModel, EditMissionModel, MissionFilter};
use brawler_missions::mission_statuses::MissionStatuses;
use brawler_missions::rules::{
    check_new_name, check_trimmed_name, ensure_no_crew, normalize_edit_name, normalize_trimmed_name,
    parse_max_crew,
};
use brawler_missions::text::{contains_text, text_eq};
use brawler_missions::use_cases::MissionOperationUseCase;

#[test]
fn status_texts() {
    assert_eq!(MissionStatuses::Open.to_string(), "Open");
    assert_eq!(MissionStatuses::InProgress.to_string(), "InProgress");
    assert_eq!(MissionStatuses::Completed.to_string(), "Completed");
    assert_eq!(MissionStatuses::Failed.as_str(), "Failed");
    assert_eq!(MissionStatuses::default(), MissionStatuses::Open);
}

#[test]
fn status_from_text() {
    assert_eq!(MissionStatuses::from_text("Open"), Some(MissionStatuses::Open));
    assert_eq!(MissionStatuses::from_text("InProgress"), Some(MissionStatuses::InProgress));
    assert_eq!(MissionStatuses::from_text("Completed"), Some(MissionStatuses::Completed));
    assert_eq!(MissionStatuses::from_text("Failed"), Some(MissionStatuses::Failed));
    assert_eq!(MissionStatuses::from_text("open"), None);
    assert_eq!(MissionStatuses::from_text("success"), None);
    assert_eq!(MissionStatuses::from_text(""), None);
}

#[test]
fn capacity_parsing() {
    assert_eq!(parse_max_crew("5"), Ok(5));
    assert_eq!(parse_max_crew("120"), Ok(120));
    assert_eq!(parse_max_crew("9223372036854775807"), Ok(i64::MAX));
    assert_eq!(parse_max_crew("9223372036854775808"), Err(MissionError::Unavailable));
    assert_eq!(parse_max_crew(""), Err(MissionError::Unavailable));
    assert_eq!(parse_max_crew("0"), Err(MissionError::Unavailable));
    assert_eq!(parse_max_crew("-3"), Err(MissionError::Unavailable));
    assert_eq!(parse_max_crew("5x"), Err(MissionError::Unavailable));
}

#[test]
fn operation_service_from_config() {
    assert_eq!(
        MissionOperationUseCase::from_config(Some("7")).map(|u| u.max_crew_per_mission),
        Ok(7)
    );
    assert_eq!(
        MissionOperationUseCase::from_config(None).map(|u| u.max_crew_per_mission),
        Err(MissionError::Unavailable)
    );
    assert_eq!(
        MissionOperationUseCase::from_config(Some("many")).map(|u| u.max_crew_per_mission),
        Err(MissionError::Unavailable)
    );
}

#[test]
fn edit_name_normalisation() {
    assert_eq!(normalize_edit_name(None), Ok(None));
    assert_eq!(normalize_edit_name(Some("  ".to_string())), Ok(None));
    assert_eq!(normalize_edit_name(Some("".to_string())), Ok(None));
    assert_eq!(normalize_edit_name(Some(" ab".to_string())), Err(MissionError::ValidationError));
    assert_eq!(normalize_edit_name(Some("\tabc\n".to_string())), Ok(Some("abc".to_string())));
}

#[test]
fn crew_gate() {
    assert_eq!(ensure_no_crew(0), Ok(()));
    assert_eq!(ensure_no_crew(1), Err(MissionError::Conflict));
    assert_eq!(ensure_no_crew(-1), Ok(()));
}

#[test]
fn text_helpers() {
    assert!(text_eq("Open", "Open"));
    assert!(!text_eq("Open", "open"));
    assert!(!text_eq("Open", "Opened"));
    assert!(contains_text("rescue op", "resc"));
    assert!(contains_text("prescue", "resc"));
    assert!(contains_text("abc", ""));
    assert!(!contains_text("res", "resc"));
    assert!(!contains_text("Rescue", "resc"));
}

#[test]
fn filter_accepts_case_insensitively() {
    let mut store = brawler_missions::store::MissionStore::new();
    let id = brawler_missions::use_cases::MissionManagementUseCase::new()
        .add(&mut store, 1, AddMissionModel { name: "Big RESCUE".to_string(), description: None }, 1)
        .unwrap();
    let m = store.get_one(id).unwrap();
    let f = MissionFilter { name: Some("Rescue".to_string()), status: None };
    assert!(f.accepts(&m));
    let g = MissionFilter { name: Some("escort".to_string()), status: None };
    assert!(!g.accepts(&m));
    let h = MissionFilter { name: None, status: Some(MissionStatuses::Failed) };
    assert!(!h.accepts(&m));
    assert!(MissionFilter::new().accepts(&m));
}

#[test]
fn model_conversions() {
    let add = AddMissionModel { name: "Scout".to_string(), description: Some("x".to_string()) };
    let e = add.to_entity(4);
    assert_eq!(e.chief_id, 4);
    assert_eq!(e.status, "Open");
    assert_eq!(e.name, "Scout");
    let edit = EditMissionModel { name: None, description: Some("y".to_string()) };
    let c = edit.to_entity(6);
    assert_eq!(c.chief_id, 6);
    assert_eq!(c.name, None);
    assert_eq!(c.description, Some("y".to_string()));
}

#[test]
fn error_messages() {
    assert_eq!(MissionError::ValidationError.message(), "name must be at least 4 characters");
    assert_eq!(MissionError::Conflict.message(), "mission already has crew, cannot edit");
    assert_eq!(MissionError::InvalidTransition.message(), "invalid condition to change stages");
    assert_eq!(MissionError::NotFound.message(), "mission not found");
    assert_eq!(MissionError::Unavailable.message(), "mission store unavailable");
}

#[test]
fn trimmed_name_rules() {
    assert_eq!(check_trimmed_name("Hi"), Err(MissionError::ValidationError));
    assert_eq!(check_trimmed_name("Hey"), Ok(()));
    assert_eq!(check_trimmed_name(""), Err(MissionError::ValidationError));
    assert_eq!(normalize_trimmed_name("".to_string()), Ok(None));
    assert_eq!(normalize_trimmed_name("ab".to_string()), Err(MissionError::ValidationError));
    assert_eq!(normalize_trimmed_name("abc".to_string()), Ok(Some("abc".to_string())));
}

#[test]
fn unicode_whitespace_is_trimmed() {
    assert_eq!(check_new_name("\u{3000}Hi\u{2003}\u{85}"), Err(MissionError::ValidationError));
    assert_eq!(check_new_name("\u{a0}H i\u{202f}"), Ok(()));
    assert_eq!(
        normalize_edit_name(Some("\u{2028}Scout\u{205f}".to_string())),
        Ok(Some("Scout".to_string()))
    );
    assert_eq!(normalize_edit_name(Some("\u{1680}\u{2000}\t".to_string())), Ok(None));
}

#[test]
fn register_entity_uses_hash() {
    let model = RegisterBrawlerModel {
        username: "kai".to_string(),
        password: "plain".to_string(),
        display_name: "Kai".to_string(),
    };
    let copy = model.to_entity();
    assert_eq!(copy.password, "plain");
    let e = BrawlersUseCase::new().register_entity(&model, "hashed".to_string());
    assert_eq!(e.username, "kai");
    assert_eq!(e.password, "hashed");
    assert_eq!(e.display_name, "Kai");
}

#[test]
fn avatar_options() {
    let opt = BrawlersUseCase::new().avatar_options(42);
    assert_eq!(opt.folder.as_deref(), Some("avatar"));
    assert_eq!(opt.public_id.as_deref(), Some("42"));
    assert_eq!(opt.transformation.as_deref(), Some("c_scale,w_256"));
    let neg = BrawlersUseCase::new().avatar_options(-7);
    assert_eq!(neg.public_id.as_deref(), Some("-7"));
}

#[test]
fn integer_text_edges() {
    assert_eq!(i32_text(0), "0");
    assert_eq!(i32_text(9), "9");
    assert_eq!(i32_text(10), "10");
    assert_eq!(i32_text(1203), "1203");
    assert_eq!(i32_text(i32::MAX), "2147483647");
    assert_eq!(i32_text(i32::MIN), "-2147483648");
}

#[test]
fn uploaded_img_fields() {
    let img = UploadedImg::new("http://img/1".to_string(), "avatar/1".to_string());
    assert_eq!(img.url, "http://img/1");
    assert_eq!(img.public_id, "avatar/1");
}

#[test]
fn claims_stamps() {
    let c = Claims::new(17, 1_000, 2).unwrap();
    assert_eq!(c.sub, "17");
    assert_eq!(c.iat, 1_000);
    assert_eq!(c.exp, 1_000 + 2 * 86_400);
    assert!(Claims::new(1, -1, 1).is_none());
    assert!(Claims::new(1, 0, i64::MAX).is_none());
    assert!(Claims::new(1, 100_000, -2).is_none());
    let z = Claims::new(1, 86_400, -1).unwrap();
    assert_eq!(z.exp, 0);
}
