use tarantula_bot::action::{tag, ActionKind, BotCallback, DecodeError, KIND_COUNT, kind_at};
use tarantula_bot::naming::{snake_case_from, to_snake_case, CharClass};

fn all_sample_actions() -> Vec<BotCallback> {
    vec![
        BotCallback::MainMenu,
        BotCallback::ListTarantulas,
        BotCallback::FeedingSchedule,
        BotCallback::HealthAlerts,
        BotCallback::Maintenance,
        BotCallback::Colonies,
        BotCallback::StatusOverview,
        BotCallback::RecordFeeding,
        BotCallback::RecordHealthCheck,
        BotCallback::MoltHistory,
        BotCallback::RecordMolt,
        BotCallback::ColonyMaintenance,
        BotCallback::ViewRecords,
        BotCallback::ViewFeedingRecords,
        BotCallback::ViewHealthRecords,
        BotCallback::ViewMoltRecords,
        BotCallback::FeedTarantula(7),
        BotCallback::HealthCheck(i64::MAX),
        BotCallback::HealthStatus(3, 2),
        BotCallback::MoltSimple(0),
        BotCallback::ColonyMaintenanceMenu(5),
        BotCallback::FeedSelectColony(1, 2),
        BotCallback::FeedConfirm(i64::MAX, 9, i32::MIN),
        BotCallback::ColonyGetCount(12),
        BotCallback::ColonyCountUpdate(42, -5),
        BotCallback::ViewFeedingSchedule(0),
    ]
}

#[test]
fn encode_colony_count_update() {
    let a = BotCallback::ColonyCountUpdate(42, -5);
    assert_eq!(a.encode(), "colony_count_update_42_-5");
    assert_eq!(BotCallback::decode("colony_count_update_42_-5"), Ok(a));
}

#[test]
fn encode_zero_field_and_multi_field() {
    assert_eq!(BotCallback::MainMenu.encode(), "main_menu");
    assert_eq!(BotCallback::FeedConfirm(1, 2, 3).encode(), "feed_confirm_1_2_3");
    assert_eq!(BotCallback::HealthStatus(10, 3).encode(), "health_status_10_3");
    assert_eq!(
        BotCallback::FeedConfirm(i64::MAX, 9, i32::MIN).encode(),
        "feed_confirm_9223372036854775807_9_-2147483648"
    );
}

#[test]
fn round_trip_every_variant() {
    let actions = all_sample_actions();
    assert_eq!(actions.len(), KIND_COUNT);
    for a in actions {
        assert_eq!(BotCallback::decode(&a.encode()), Ok(a));
    }
}

#[test]
fn every_kind_has_a_distinct_tag() {
    let mut seen: Vec<&str> = Vec::new();
    for i in 0..KIND_COUNT {
        let t = tag(kind_at(i));
        assert!(!seen.contains(&t));
        seen.push(t);
    }
}

#[test]
fn tags_are_the_snake_case_of_the_variant_names() {
    let names = [
        "MainMenu", "ListTarantulas", "FeedingSchedule", "HealthAlerts", "Maintenance",
        "Colonies", "StatusOverview", "RecordFeeding", "RecordHealthCheck", "MoltHistory",
        "RecordMolt", "ColonyMaintenance", "ViewRecords", "ViewFeedingRecords",
        "ViewHealthRecords", "ViewMoltRecords", "FeedTarantula", "HealthCheck", "HealthStatus",
        "MoltSimple", "ColonyMaintenanceMenu", "FeedSelectColony", "FeedConfirm",
        "ColonyGetCount", "ColonyCountUpdate", "ViewFeedingSchedule",
    ];
    for (i, n) in names.iter().enumerate() {
        assert_eq!(to_snake_case(n), tag(kind_at(i)));
    }
}

#[test]
fn snake_case_edges() {
    assert_eq!(to_snake_case(""), "");
    assert_eq!(to_snake_case("already_snake"), "already_snake");
    assert_eq!(to_snake_case("HTTPServer"), "http_server");
    assert_eq!(to_snake_case("ParseURLNow"), "parseurl_now");
    assert_eq!(to_snake_case("ÉcoleNormale"), "école_normale");
    assert_eq!(to_snake_case("Feed2Colony"), "feed2_colony");
    assert_eq!(to_snake_case("Snake_Case"), "snake__case");
    assert_eq!(to_snake_case("A"), "a");
    assert_eq!(to_snake_case("x9Y"), "x9y");
}

#[test]
fn arity_mismatch_for_field_variant() {
    assert_eq!(
        BotCallback::decode("colony_count_update_42"),
        Err(DecodeError::ArityMismatch { expected: 2, actual: 1 })
    );
    assert_eq!(
        BotCallback::decode("colony_count_update_42_1_2"),
        Err(DecodeError::ArityMismatch { expected: 2, actual: 3 })
    );
    assert_eq!(
        BotCallback::decode("feed_tarantula"),
        Err(DecodeError::ArityMismatch { expected: 1, actual: 0 })
    );
}

#[test]
fn arity_mismatch_for_zero_field_variant() {
    assert_eq!(
        BotCallback::decode("main_menu_5"),
        Err(DecodeError::ArityMismatch { expected: 0, actual: 1 })
    );
    assert_eq!(
        BotCallback::decode("colonies_1_2"),
        Err(DecodeError::ArityMismatch { expected: 0, actual: 2 })
    );
}

#[test]
fn tag_collision_routes_both_variants() {
    assert_eq!(BotCallback::decode("colony_maintenance"), Ok(BotCallback::ColonyMaintenance));
    assert_eq!(
        BotCallback::decode("colony_maintenance_menu_5"),
        Ok(BotCallback::ColonyMaintenanceMenu(5))
    );
    assert_eq!(
        BotCallback::decode("colony_maintenance_menu"),
        Err(DecodeError::ArityMismatch { expected: 1, actual: 0 })
    );
    assert_eq!(BotCallback::decode("feeding_schedule"), Ok(BotCallback::FeedingSchedule));
    assert_eq!(
        BotCallback::decode("view_feeding_schedule_4"),
        Ok(BotCallback::ViewFeedingSchedule(4))
    );
}

#[test]
fn field_parse_errors_give_the_first_bad_position() {
    assert_eq!(
        BotCallback::decode("feed_confirm_1_x_3"),
        Err(DecodeError::FieldParse { position: 1 })
    );
    assert_eq!(
        BotCallback::decode("feed_confirm_a_b_3"),
        Err(DecodeError::FieldParse { position: 0 })
    );
    assert_eq!(
        BotCallback::decode("feed_tarantula_"),
        Err(DecodeError::FieldParse { position: 0 })
    );
    assert_eq!(
        BotCallback::decode("colony_count_update_1_2147483648"),
        Err(DecodeError::FieldParse { position: 1 })
    );
    assert_eq!(
        BotCallback::decode("health_check_9223372036854775808"),
        Err(DecodeError::FieldParse { position: 0 })
    );
    assert_eq!(
        BotCallback::decode("health_check_-"),
        Err(DecodeError::FieldParse { position: 0 })
    );
}

#[test]
fn signed_and_padded_fields_decode() {
    assert_eq!(BotCallback::decode("health_check_+7"), Ok(BotCallback::HealthCheck(7)));
    assert_eq!(BotCallback::decode("health_check_007"), Ok(BotCallback::HealthCheck(7)));
    assert_eq!(BotCallback::decode("health_check_-0"), Ok(BotCallback::HealthCheck(0)));
    assert_eq!(
        BotCallback::decode("colony_count_update_1_-2147483648"),
        Ok(BotCallback::ColonyCountUpdate(1, i32::MIN))
    );
}

#[test]
fn unknown_action_keeps_the_token() {
    assert_eq!(
        BotCallback::decode("no_such_thing_1"),
        Err(DecodeError::UnknownAction("no_such_thing_1".to_string()))
    );
    assert_eq!(BotCallback::decode(""), Err(DecodeError::UnknownAction(String::new())));
    assert_eq!(
        BotCallback::decode("main_menux"),
        Err(DecodeError::UnknownAction("main_menux".to_string()))
    );
    assert_eq!(
        BotCallback::decode("MAIN_MENU"),
        Err(DecodeError::UnknownAction("MAIN_MENU".to_string()))
    );
}

#[test]
fn kinds_match_actions() {
    assert_eq!(BotCallback::ColonyCountUpdate(1, 2).kind(), ActionKind::ColonyCountUpdate);
    assert_eq!(BotCallback::FeedConfirm(1, 2, 3).fields(), vec![1, 2, 3]);
    assert_eq!(
        BotCallback::from_fields(ActionKind::HealthStatus, &vec![4, 2]),
        BotCallback::HealthStatus(4, 2)
    );
}

#[test]
fn tokens_of_stored_ids_fit_the_payload_limit() {
    let a = BotCallback::FeedConfirm(i64::MAX, i64::MAX, i32::MIN);
    assert!(a.encode().len() <= 64);
}

#[test]
fn negative_ids_are_refused() {
    assert_eq!(
        BotCallback::decode("health_check_-1"),
        Err(DecodeError::FieldParse { position: 0 })
    );
    assert_eq!(
        BotCallback::decode("feed_confirm_1_-2_3"),
        Err(DecodeError::FieldParse { position: 1 })
    );
    assert_eq!(
        BotCallback::decode("colony_count_update_1_-3"),
        Ok(BotCallback::ColonyCountUpdate(1, -3))
    );
    assert!(!BotCallback::FeedConfirm(-1, 2, 3).is_valid());
    assert!(!BotCallback::HealthStatus(1, -2).is_valid());
    assert!(BotCallback::FeedConfirm(0, 2, -3).is_valid());
    assert!(BotCallback::MainMenu.is_valid());
}

#[test]
fn tokens_over_the_payload_are_refused() {
    let long = format!("health_check_{}", "0".repeat(51));
    assert_eq!(long.len(), 64);
    assert_eq!(BotCallback::decode(&long), Ok(BotCallback::HealthCheck(0)));
    let longer = format!("health_check_{}", "0".repeat(52));
    assert_eq!(BotCallback::decode(&longer), Err(DecodeError::TooLong { length: 65 }));
    assert_eq!(
        BotCallback::decode(&"x".repeat(100)),
        Err(DecodeError::TooLong { length: 100 })
    );
    let widest = BotCallback::FeedConfirm(i64::MAX, i64::MAX, i32::MIN).encode();
    assert_eq!(widest.len(), 64);
    assert_eq!(
        BotCallback::decode(&widest),
        Ok(BotCallback::FeedConfirm(i64::MAX, i64::MAX, i32::MIN))
    );
}

#[test]
fn snake_case_from_given_classes() {
    let c = |ch: char, upper: bool, lower: bool, lowered: char| CharClass { ch, upper, lower, lowered };
    let cs = vec![
        c('A', true, false, 'a'),
        c('b', false, true, 'b'),
        c('C', true, false, 'c'),
        c('d', false, true, 'd'),
        c('E', true, false, 'e'),
    ];
    assert_eq!(snake_case_from(&cs), "ab_cde");
    assert_eq!(snake_case_from(&Vec::new()), "");
}
