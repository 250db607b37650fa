use karma_core::karma::{KarmaError, KarmaPoint, KarmaStatus, KarmaType, State};

#[test]
fn purpose_codes_round_trip() {
    for code in 1..=5 {
        let t = KarmaType::from_code(code).unwrap();
        assert_eq!(t.code(), code);
    }
    assert_eq!(KarmaType::from_code(1).unwrap(), KarmaType::Work);
    assert_eq!(KarmaType::from_code(2).unwrap(), KarmaType::Social);
    assert_eq!(KarmaType::from_code(3).unwrap(), KarmaType::Sport);
    assert_eq!(KarmaType::from_code(4).unwrap(), KarmaType::Learning);
    assert_eq!(KarmaType::from_code(5).unwrap(), KarmaType::Sleeping);
}

#[test]
fn out_of_range_codes_carry_the_offending_value() {
    for code in [-3, 0, 6, 42, i32::MAX, i32::MIN] {
        match KarmaType::from_code(code) {
            Err(KarmaError::InvalidNumericKarmaType(v)) => assert_eq!(v, code),
            other => panic!("code {} should have been rejected, got {:?}", code, other),
        }
    }
}

#[test]
fn only_the_work_label_is_supported() {
    assert_eq!(KarmaType::from_label("work").unwrap(), KarmaType::Work);
    for label in ["Work", "sport", "social", "learning", "sleeping", "", "w", "work "] {
        match KarmaType::from_label(label) {
            Err(karma_core::api::KarmaApiError::InvalidKarmaType(s)) => assert_eq!(s, label),
            other => panic!("label {:?} should have been rejected, got {:?}", label, other),
        }
    }
}

#[test]
fn state_text_round_trip() {
    assert_eq!(State::Active.to_string(), "active");
    assert_eq!(State::Closed.to_string(), "closed");
    assert_eq!(State::parse("active").unwrap(), State::Active);
    assert_eq!(State::parse("closed").unwrap(), State::Closed);
    match State::parse("Active") {
        Err(KarmaError::UnsupportedStatus(s)) => assert_eq!(s, "Active"),
        other => panic!("strict parsing should reject it, got {:?}", other),
    }
}

#[test]
fn lenient_state_reading_defaults_to_closed() {
    assert_eq!(State::from_text("active"), State::Active);
    assert_eq!(State::from_text("ACTIVE"), State::Active);
    assert_eq!(State::from_text("Active"), State::Active);
    assert_eq!(State::from_text("closed"), State::Closed);
    assert_eq!(State::from_text("whatever"), State::Closed);
    assert_eq!(State::from_text(""), State::Closed);
}

#[test]
fn new_point_has_no_id_until_storage_assigns_one() {
    let p = KarmaPoint::new(KarmaType::Work, "Morning run".to_string());
    assert_eq!(p.get_id(), None);
    assert_eq!(p.get_purpose(), KarmaType::Work);
    assert_eq!(p.get_name(), "Morning run");

    let q = KarmaPoint::with_id(7, KarmaType::Sport, "Morning run".to_string());
    assert_eq!(q.get_id(), Some(7));
}

#[test]
fn point_decoding_checks_the_purpose_code() {
    let p = KarmaPoint::from_columns(3, 4, "Read a book".to_string()).unwrap();
    assert_eq!(p.get_id(), Some(3));
    assert_eq!(p.get_purpose(), KarmaType::Learning);
    match KarmaPoint::from_columns(3, 9, "Read a book".to_string()) {
        Err(KarmaError::InvalidNumericKarmaType(v)) => assert_eq!(v, 9),
        other => panic!("purpose 9 should have been rejected, got {:?}", other),
    }
}

#[test]
fn status_decoding_reads_the_absent_sentinel() {
    let s = KarmaStatus::from_columns(1, "active".to_string(), 1700000000, 0).unwrap();
    assert_eq!(s, KarmaStatus::new(1, State::Active, 1700000000));
    assert_eq!(s.closed_with, None);

    let closed = KarmaStatus::from_columns(1, "closed".to_string(), 1700000001, 3).unwrap();
    assert_eq!(
        closed,
        KarmaStatus::with_closed_reason(1, State::Closed, 1700000001, KarmaType::Sport)
    );

    match KarmaStatus::from_columns(1, "closed".to_string(), 1700000002, 11) {
        Err(KarmaError::InvalidNumericKarmaType(v)) => assert_eq!(v, 11),
        other => panic!("closing code 11 should have been rejected, got {:?}", other),
    }
}
