use karma_core::db::{BackingStore, DbManager, DbManagerError, KarmaRow, StorageFault, UserRow};
use karma_core::karma::KarmaError;
use karma_core::karma::{KarmaPoint, KarmaStatus, KarmaType, State};
use karma_core::karma_repository::KarmaRepository;
use karma_core::user::{User, UsernameError};
use karma_core::user_repository::UserRepository;

fn fresh_manager() -> DbManager {
    let manager = DbManager::new(None);
    assert!(manager.created_schema);
    manager
}

#[test]
fn opening_an_absent_store_creates_the_schema() {
    let manager = DbManager::new(None);
    assert!(manager.created_schema);
    assert!(manager.db.users.is_empty());
    assert!(manager.db.karma.is_empty());
    assert!(manager.db.karma_status.is_empty());
}

#[test]
fn reopening_an_existing_store_skips_schema_creation() {
    let mut manager = fresh_manager();
    let point = KarmaPoint::new(KarmaType::Work, "Standup".to_string());
    manager.insert_karma(point).unwrap();
    let before = manager.db.clone();

    let reopened = DbManager::new(Some(manager.db));
    assert!(!reopened.created_schema);
    assert_eq!(reopened.db, before);
    // and the data is still reachable
    let fetched = reopened.get_karma_by_name("Standup".to_string()).unwrap();
    assert_eq!(fetched.get_name(), "Standup");
}

#[test]
fn test_karma_point_operations() {
    let karma = KarmaPoint::new(KarmaType::Sport, "Sporty karma".to_string());
    let mut manager = fresh_manager();
    let name = karma.get_name();
    let inserted_karma = manager
        .insert_karma(karma)
        .expect("Failed to insert the karma point");

    assert_eq!(name, inserted_karma.get_name());

    let _retrieved_karma = manager
        .get_karma_by_name("Sporty karma".to_string())
        .expect("Could not retrieve karma point by name");
}

#[test]
fn test_karma_status_operations() {
    let karma = KarmaPoint::new(KarmaType::Learning, "Learning K".to_string());
    let mut manager = fresh_manager();
    manager
        .insert_karma(karma.clone())
        .expect("Failed to insert the karma point");
    let karma = manager.get_karma_by_name(karma.get_name()).unwrap();

    if let Some(id) = karma.get_id() {
        let timestamp = 1700000000;
        let karma_status = KarmaStatus::new(id, State::Active, timestamp);

        let _inserted_karma_status = manager
            .insert_karma_status(karma_status)
            .expect("Failed to insert the karma point");
    } else {
        assert!(false);
    }

    let karma_status = manager
        .get_karma_status(karma.clone())
        .expect("Failed to retrieve the karma status");

    assert_eq!(karma_status.karma_id, karma.get_id().unwrap());
}

#[test]
fn insert_hands_back_the_point_with_its_assigned_id() {
    let mut manager = fresh_manager();
    let first = manager
        .insert_karma(KarmaPoint::new(KarmaType::Work, "First".to_string()))
        .unwrap();
    assert_eq!(first.get_id(), Some(1));
    assert_eq!(first.get_name(), "First");
    assert_eq!(first.get_purpose(), KarmaType::Work);

    let second = manager
        .insert_karma(KarmaPoint::new(KarmaType::Social, "Second".to_string()))
        .unwrap();
    assert_eq!(second.get_id(), Some(2));

    // the lookup agrees with what insert handed back
    let fetched = manager.get_karma_by_name("Second".to_string()).unwrap();
    assert_eq!(fetched.get_id(), Some(2));
    assert_eq!(fetched.get_purpose(), KarmaType::Social);
}

#[test]
fn duplicate_names_violate_the_unique_constraint() {
    let mut manager = fresh_manager();
    let first = KarmaPoint::new(KarmaType::Work, "Same name".to_string());
    manager.insert_karma(first).unwrap();

    let second = KarmaPoint::new(KarmaType::Sport, "Same name".to_string());
    match manager.insert_karma(second) {
        Err(DbManagerError::OpenConnection(StorageFault::UniqueViolation)) => {}
        other => panic!("expected a unique violation, got {:?}", other),
    }

    // a fresh unique name still goes through, and the lookup agrees
    let third = KarmaPoint::new(KarmaType::Sleeping, "Other name".to_string());
    manager.insert_karma(third).unwrap();
    let fetched = manager.get_karma_by_name("Other name".to_string()).unwrap();
    assert_eq!(fetched.get_name(), "Other name");
    assert_eq!(fetched.get_purpose(), KarmaType::Sleeping);
    assert!(fetched.get_id().is_some());
}

#[test]
fn fetching_an_unknown_name_is_a_not_found_fault() {
    let manager = fresh_manager();
    match manager.get_karma_by_name("Nobody".to_string()) {
        Err(DbManagerError::OpenConnection(StorageFault::RowNotFound)) => {}
        other => panic!("expected a not-found fault, got {:?}", other),
    }
}

#[test]
fn statuses_come_back_decoded_with_their_closing_purpose() {
    let mut manager = fresh_manager();
    let point = KarmaPoint::new(KarmaType::Sport, "Evening swim".to_string());
    manager.insert_karma(point.clone()).unwrap();
    let stored = manager.get_karma_by_name(point.get_name()).unwrap();
    let id = stored.get_id().unwrap();

    let status =
        KarmaStatus::with_closed_reason(id, State::Closed, 1700000100, KarmaType::Learning);
    manager.insert_karma_status(status.clone()).unwrap();

    let fetched = manager.get_karma_status(stored).unwrap();
    assert_eq!(fetched, status);
    assert_eq!(fetched.closed_with, Some(KarmaType::Learning));
}

#[test]
fn a_point_without_statuses_has_none_to_fetch() {
    let mut manager = fresh_manager();
    let point = KarmaPoint::new(KarmaType::Work, "Quiet one".to_string());
    manager.insert_karma(point.clone()).unwrap();
    match manager.get_karma_status(point) {
        Err(DbManagerError::OpenConnection(StorageFault::RowNotFound)) => {}
        other => panic!("expected a not-found fault, got {:?}", other),
    }
}

#[test]
fn users_round_trip_through_the_store() {
    let mut manager = fresh_manager();
    let user = User::new("vladonzis", "V1@eflsjdfnsdf").unwrap();
    let hash = user.hashed_password.get_password();
    manager.insert_user(user).unwrap();

    let fetched = manager.get_user("vladonzis").unwrap();
    assert_eq!(fetched.username.get_username(), "vladonzis");
    assert_eq!(fetched.hashed_password.get_password(), hash);
}

#[test]
fn duplicate_usernames_violate_the_unique_constraint() {
    let mut manager = fresh_manager();
    manager
        .insert_user(User::new("vladonzis", "V1@eflsjdfnsdf").unwrap())
        .unwrap();
    match manager.insert_user(User::new("vladonzis", "Other9@pass").unwrap()) {
        Err(DbManagerError::OpenConnection(StorageFault::UniqueViolation)) => {}
        other => panic!("expected a unique violation, got {:?}", other),
    }
}

#[test]
fn fetching_an_unknown_user_is_a_not_found_fault() {
    let manager = fresh_manager();
    match manager.get_user("vladonzis") {
        Err(DbManagerError::OpenConnection(StorageFault::RowNotFound)) => {}
        other => panic!("expected a not-found fault, got {:?}", other),
    }
}

#[test]
fn a_stored_username_failing_validation_is_a_decode_fault() {
    // a row written under other rules: the username no longer validates
    let store = BackingStore {
        users: vec![UserRow {
            username: "Blad".to_string(),
            password: "$2b$12$abcdefghijklmnopqrstuv".to_string(),
        }],
        karma: vec![],
        karma_status: vec![],
    };
    let manager = DbManager::new(Some(store));
    match manager.get_user("Blad") {
        Err(DbManagerError::OpenConnection(StorageFault::UserDecode(
            UsernameError::UsernameSize,
        ))) => {}
        other => panic!("expected a decode fault, got {:?}", other),
    }
}

#[test]
fn a_stored_purpose_out_of_range_is_a_decode_fault() {
    // a karma row written by something other than this schema's writers
    let store = BackingStore {
        users: vec![],
        karma: vec![KarmaRow {
            id: 1,
            purpose: 9,
            name: "Mystery".to_string(),
        }],
        karma_status: vec![],
    };
    let manager = DbManager::new(Some(store));
    match manager.get_karma_by_name("Mystery".to_string()) {
        Err(DbManagerError::OpenConnection(StorageFault::KarmaDecode(
            KarmaError::InvalidNumericKarmaType(9),
        ))) => {}
        other => panic!("expected a decode fault, got {:?}", other),
    }
}

#[test]
fn errors_cross_the_boundary_as_an_external_kind() {
    let err = DbManagerError::OpenConnection(StorageFault::RowNotFound);
    assert_eq!(err.kind_tag(), "external");
}

#[test]
fn the_accounts_service_wires_a_store_manager() {
    let service = karma_core::accounts_service::AccountsService::new(None).unwrap();
    assert!(service.db_manager.created_schema);

    let reopened =
        karma_core::accounts_service::AccountsService::new(Some(service.db_manager.db)).unwrap();
    assert!(!reopened.db_manager.created_schema);
}
