use karma_core::api::{create_karma, ApiController, ControllerCell, KarmaApiError};
use karma_core::db::{DbManagerError, StorageFault};
use karma_core::karma::KarmaType;
use karma_core::karma_repository::KarmaRepository;
use karma_core::karma_service::KarmaServiceError;

#[test]
fn the_controller_is_initialized_exactly_once() {
    let mut cell = ControllerCell::new();
    assert_eq!(cell.schema_creations, 0);

    cell.get_controller().unwrap();
    assert_eq!(cell.schema_creations, 1);

    // further accesses find the published controller and create nothing
    cell.get_controller().unwrap();
    cell.get_controller().unwrap();
    assert_eq!(cell.schema_creations, 1);
}

#[test]
fn every_access_observes_the_same_underlying_store() {
    let mut cell = ControllerCell::new();
    create_karma(&mut cell, "Persistent".to_string(), "work").unwrap();

    // a later access goes to the same instance: the point is still there
    cell.get_controller().unwrap();
    let controller = cell.controller.as_mut().unwrap();
    let fetched = controller
        .karma_service
        .karma_repository
        .get_karma_by_name("Persistent".to_string())
        .unwrap();
    assert_eq!(fetched.get_name(), "Persistent");
    assert_eq!(cell.schema_creations, 1);
}

#[test]
fn create_karma_rejects_unsupported_purposes() {
    let mut cell = ControllerCell::new();
    match create_karma(&mut cell, "Anything".to_string(), "sport") {
        Err(KarmaApiError::InvalidKarmaType(s)) => assert_eq!(s, "sport"),
        other => panic!("expected an invalid purpose error, got {:?}", other),
    }
    // rejected before any store access: nothing was initialised
    assert_eq!(cell.schema_creations, 0);
    assert!(cell.controller.is_none());
}

#[test]
fn create_karma_stores_a_work_point() {
    let mut cell = ControllerCell::new();
    create_karma(&mut cell, "Writing docs".to_string(), "work").unwrap();

    let controller = cell.controller.as_mut().unwrap();
    let fetched = controller
        .karma_service
        .karma_repository
        .get_karma_by_name("Writing docs".to_string())
        .unwrap();
    assert_eq!(fetched.get_purpose(), KarmaType::Work);
}

#[test]
fn create_karma_reports_duplicates_through_the_error_chain() {
    let mut cell = ControllerCell::new();
    create_karma(&mut cell, "Twice".to_string(), "work").unwrap();
    match create_karma(&mut cell, "Twice".to_string(), "work") {
        Err(KarmaApiError::KarmaCreationFailed(KarmaServiceError::Storage(
            DbManagerError::OpenConnection(StorageFault::UniqueViolation),
        ))) => {}
        other => panic!("expected the wrapped unique violation, got {:?}", other),
    }
}

#[test]
fn a_wired_controller_fronts_a_fresh_store() {
    let controller = ApiController::new(None).unwrap();
    assert!(controller.karma_service.karma_repository.created_schema);
    assert!(controller.karma_service.karma_repository.db.karma.is_empty());
}
