use tarantula_bot::action::{BotCallback, DecodeError};
use tarantula_bot::dispatch::{
    describe_decode_error, failure_reply, outcome_reply, route, HandlerError, Route,
};
use tarantula_bot::keyboards::{
    back_to_list_keyboard, back_to_menu_keyboard, back_to_records_keyboard, button,
    colony_count_keyboard, colony_maintenance_keyboard, feed_command_keyboard,
    feed_count_selection_keyboard, health_check_keyboard, pick_rows, view_records_keyboard,
    welcome_keyboard, with_back_button, Button,
};
use tarantula_bot::models::{
    ColonyStatus, CricketSize, FeedingStatus, HealthStatus, MoltStage,
};

fn flat(k: &Vec<Vec<Button>>) -> Vec<Vec<(String, String)>> {
    k.iter()
        .map(|r| r.iter().map(|b| (b.label.clone(), b.action.encode())).collect())
        .collect()
}

fn colony(id: i64, name: &str, size: CricketSize) -> ColonyStatus {
    ColonyStatus {
        id,
        colony_name: name.to_string(),
        current_count: 10,
        size_type: size,
        crickets_used_7_days: 0,
        weeks_remaining_hundredths: None,
    }
}

#[test]
fn colony_count_update_token_routes_to_its_handler() {
    let token = BotCallback::ColonyCountUpdate(42, -5).encode();
    assert_eq!(token, "colony_count_update_42_-5");
    match route(&token) {
        Route::Run(BotCallback::ColonyCountUpdate(colony_id, delta)) => {
            assert_eq!(colony_id, 42);
            assert_eq!(delta, -5);
        }
        _ => panic!("routed elsewhere"),
    }
}

#[test]
fn invalid_tokens_are_rejected_with_one_reply() {
    for t in ["bogus", "main_menu_1", "feed_confirm_1_2_x"] {
        match route(t) {
            Route::Reject(m) => assert_eq!(m, "⚠️ Invalid request"),
            Route::Run(_) => panic!("ran a handler for {}", t),
        }
    }
}

#[test]
fn failure_replies() {
    assert_eq!(
        failure_reply(&HandlerError::NotFound("Colony not found".to_string())),
        "❌ Colony not found"
    );
    assert_eq!(
        failure_reply(&HandlerError::ValidationError("bad count".to_string())),
        "⚠️ bad count"
    );
    assert_eq!(
        failure_reply(&HandlerError::RepositoryFailure("locked".to_string())),
        "❌ A database error occurred. Please try again later."
    );
    assert_eq!(
        failure_reply(&HandlerError::TransportFailure("timeout".to_string())),
        "❌ A communication error occurred. Please try again later."
    );
    assert_eq!(outcome_reply(&Ok(())), None);
    assert_eq!(
        outcome_reply(&Err(HandlerError::NotFound("x".to_string()))),
        Some("❌ x".to_string())
    );
}

#[test]
fn decode_errors_described() {
    assert_eq!(
        describe_decode_error(&DecodeError::UnknownAction("zz".to_string())),
        "unknown action: zz"
    );
    assert_eq!(
        describe_decode_error(&DecodeError::ArityMismatch { expected: 2, actual: 13 }),
        "expected 2 fields, got 13"
    );
    assert_eq!(
        describe_decode_error(&DecodeError::TooLong { length: 70 }),
        "token of 70 characters"
    );
    assert_eq!(
        describe_decode_error(&DecodeError::FieldParse { position: 0 }),
        "field 0 is not a number"
    );
}

#[test]
fn welcome_menu_layout() {
    let k = flat(&welcome_keyboard());
    assert_eq!(k.len(), 6);
    assert_eq!(k[0][0], ("🕷 List Tarantulas".to_string(), "list_tarantulas".to_string()));
    assert_eq!(k[5][1], ("📋 View Records".to_string(), "view_records".to_string()));
    assert!(k.iter().all(|r| r.len() == 2));
}

#[test]
fn small_keyboards() {
    assert_eq!(
        flat(&back_to_menu_keyboard()),
        vec![vec![("« Back to Menu".to_string(), "main_menu".to_string())]]
    );
    let k = flat(&feed_count_selection_keyboard(3, 4));
    assert_eq!(k[0][1], ("2 crickets".to_string(), "feed_confirm_3_4_2".to_string()));
    assert_eq!(k[1][1], ("5 crickets".to_string(), "feed_confirm_3_4_5".to_string()));
    assert_eq!(k[2][0].1, "main_menu");
    let k = flat(&health_check_keyboard(8));
    assert_eq!(k.len(), 4);
    assert_eq!(k[2][0], ("🚨 Critical".to_string(), "health_status_8_3".to_string()));
    let k = flat(&colony_count_keyboard(6));
    assert_eq!(k[0][0].1, "colony_count_update_6_-10");
    assert_eq!(k[1].len(), 4);
    assert_eq!(k[1][3], ("+50".to_string(), "colony_count_update_6_50".to_string()));
    let mut k = vec![vec![button("x", BotCallback::Colonies)]];
    with_back_button(&mut k);
    assert_eq!(flat(&k)[1][0].1, "main_menu");
}

#[test]
fn colony_choice_rows_of_two() {
    let cs = vec![
        colony(1, "A", CricketSize::Small),
        colony(2, "B", CricketSize::Adult),
        colony(3, "C", CricketSize::Pinhead),
    ];
    let k = flat(&feed_command_keyboard(9, &cs));
    assert_eq!(
        k,
        vec![
            vec![
                ("A (Small)".to_string(), "feed_select_colony_9_1".to_string()),
                ("B (Adult)".to_string(), "feed_select_colony_9_2".to_string()),
            ],
            vec![("C (Pinhead)".to_string(), "feed_select_colony_9_3".to_string())],
            vec![("« Cancel".to_string(), "main_menu".to_string())],
        ]
    );
    assert_eq!(flat(&feed_command_keyboard(9, &Vec::new())).len(), 1);
}

#[test]
fn lookup_names() {
    assert_eq!(HealthStatus::Monitor.to_db_name(), "Monitor");
    assert_eq!(HealthStatus::Critical.description(), "Immediate attention required");
    assert_eq!(HealthStatus::from_id(3), HealthStatus::Critical);
    assert_eq!(HealthStatus::from_id(99), HealthStatus::Healthy);
    assert_eq!(HealthStatus::Monitor.id(), 2);
    assert_eq!(FeedingStatus::PreMolt.to_db_name(), "Pre-molt");
    assert_eq!(FeedingStatus::Overflow.description(), "Too many prey items left in enclosure");
    assert_eq!(MoltStage::PostMolt.to_db_name(), "Post-molt");
    assert_eq!(MoltStage::Failed.description(), "Experiencing molt complications");
    assert_eq!(CricketSize::Unknown.to_db_name(), "Unknown");
}

#[test]
fn picker_rows_of_two_then_back() {
    let choices = vec![
        button("Rosie (G. rosea)", BotCallback::FeedTarantula(1)),
        button("Boots (B. hamorii)", BotCallback::FeedTarantula(2)),
        button("Blue (C. cyaneopubescens)", BotCallback::FeedTarantula(3)),
        button("Red (B. boehmei)", BotCallback::FeedTarantula(4)),
    ];
    let k = flat(&pick_rows(&choices));
    assert_eq!(k.len(), 3);
    assert_eq!(k[0][1], ("Boots (B. hamorii)".to_string(), "feed_tarantula_2".to_string()));
    assert_eq!(k[1][0].1, "feed_tarantula_3");
    assert_eq!(k[2], vec![("« Back to Menu".to_string(), "main_menu".to_string())]);
    assert_eq!(flat(&pick_rows(&Vec::new())).len(), 1);
    assert_eq!(flat(&pick_rows(&vec![button("x", BotCallback::MoltSimple(5))]))[0].len(), 1);
}

#[test]
fn record_menus() {
    let k = flat(&view_records_keyboard());
    assert_eq!(k[0][0], ("Feeding Records".to_string(), "view_feeding_records".to_string()));
    assert_eq!(k[1][0].1, "view_molt_records");
    assert_eq!(k[2][0].1, "main_menu");
    assert_eq!(flat(&back_to_records_keyboard())[0][0].1, "view_records");
    assert_eq!(flat(&back_to_list_keyboard())[0][0].1, "list_tarantulas");
    let k = flat(&colony_maintenance_keyboard(12));
    assert_eq!(k[0][0], ("📝 Update Count".to_string(), "colony_get_count_12".to_string()));
    assert_eq!(k[1][0].1, "main_menu");
}
