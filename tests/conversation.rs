use tarantula_bot::conversation::{
    read_answer, read_decimal, ConversationOutcome, ConversationStore, Decimal, DialogueState,
    InputKind, InputValue,
};

fn decimal_value(d: Decimal) -> f64 {
    d.mantissa as f64 * 10f64.powi(d.exponent as i32)
}

fn dec(mantissa: i64, exponent: i64) -> Decimal {
    Decimal { mantissa, exponent }
}

#[test]
fn molt_size_conversation() {
    let mut store = ConversationStore::new();
    store.begin(7, InputKind::Decimal, DialogueState::RecordMolt { tarantula_id: 3 });
    assert_eq!(
        store.resolve(7, "abc"),
        ConversationOutcome::NeedsRetry(
            "Please send me the size in centimeters (e.g., 12.5)".to_string()
        )
    );
    assert_eq!(store.state(7), DialogueState::RecordMolt { tarantula_id: 3 });
    match store.resolve(7, "12.5") {
        ConversationOutcome::Completed(ctx, InputValue::Decimal(d)) => {
            assert_eq!(ctx, DialogueState::RecordMolt { tarantula_id: 3 });
            assert_eq!(d, dec(125, -1));
            assert_eq!(decimal_value(d), 12.5);
        }
        other => panic!("unexpected outcome {:?}", other),
    }
    assert_eq!(store.resolve(7, "anything"), ConversationOutcome::NoConversation);
    assert_eq!(store.state(7), DialogueState::Start);
}

#[test]
fn retry_leaves_state_then_completes() {
    let mut store = ConversationStore::new();
    store.begin(1, InputKind::Integer, DialogueState::UpdateColonyCount { colony_id: 9 });
    for bad in ["", "five", "+", "2147483648", "1.5"] {
        assert_eq!(
            store.resolve(1, bad),
            ConversationOutcome::NeedsRetry(
                "Please send me the count adjustment (e.g., +5 or -3)".to_string()
            )
        );
        assert_eq!(store.state(1), DialogueState::UpdateColonyCount { colony_id: 9 });
    }
    assert_eq!(
        store.resolve(1, "-3"),
        ConversationOutcome::Completed(
            DialogueState::UpdateColonyCount { colony_id: 9 },
            InputValue::Integer(-3)
        )
    );
    assert_eq!(store.resolve(1, "-3"), ConversationOutcome::NoConversation);
}

#[test]
fn chats_are_independent() {
    let mut store = ConversationStore::new();
    store.begin(1, InputKind::Integer, DialogueState::UpdateColonyCount { colony_id: 9 });
    store.begin(2, InputKind::Decimal, DialogueState::RecordMolt { tarantula_id: 4 });
    assert_eq!(
        store.resolve(2, "3"),
        ConversationOutcome::Completed(
            DialogueState::RecordMolt { tarantula_id: 4 },
            InputValue::Decimal(dec(3, 0))
        )
    );
    assert_eq!(store.state(1), DialogueState::UpdateColonyCount { colony_id: 9 });
    assert_eq!(store.resolve(3, "1"), ConversationOutcome::NoConversation);
}

#[test]
fn begin_replaces_and_exit_clears() {
    let mut store = ConversationStore::new();
    store.begin(5, InputKind::Integer, DialogueState::UpdateColonyCount { colony_id: 1 });
    store.begin(5, InputKind::Decimal, DialogueState::RecordMolt { tarantula_id: 2 });
    assert_eq!(store.state(5), DialogueState::RecordMolt { tarantula_id: 2 });
    store.exit(5);
    assert_eq!(store.state(5), DialogueState::Start);
    store.exit(5);
    assert_eq!(store.resolve(5, "1"), ConversationOutcome::NoConversation);
}

#[test]
fn decimal_forms() {
    assert_eq!(read_decimal("12.5"), Some(dec(125, -1)));
    assert_eq!(read_decimal("-0.25"), Some(dec(-25, -2)));
    assert_eq!(read_decimal("+7"), Some(dec(7, 0)));
    assert_eq!(read_decimal(".5"), Some(dec(5, -1)));
    assert_eq!(read_decimal("5."), Some(dec(5, 0)));
    assert_eq!(read_decimal("."), None);
    assert_eq!(read_decimal(""), None);
    assert_eq!(read_decimal("-"), None);
    assert_eq!(read_decimal("1.2.3"), None);
    assert_eq!(read_decimal("12,5"), None);
    assert_eq!(read_decimal(" 1"), None);
    assert_eq!(read_decimal("1e1"), Some(dec(1, 1)));
    assert_eq!(decimal_value(read_decimal("1e1").unwrap()), 10.0);
    assert_eq!(read_decimal("2.5E-1"), Some(dec(25, -2)));
    assert_eq!(read_decimal("1e+3"), Some(dec(1, 3)));
    assert_eq!(read_decimal("1.e5"), Some(dec(1, 5)));
    assert_eq!(read_decimal("-.5e2"), Some(dec(-5, 1)));
    assert_eq!(read_decimal("1e"), None);
    assert_eq!(read_decimal("e5"), None);
    assert_eq!(read_decimal("1e5e5"), None);
    assert_eq!(read_decimal("1e2.5"), None);
    assert_eq!(read_decimal("inf"), None);
    assert_eq!(read_decimal("NaN"), None);
    assert_eq!(read_decimal("1e9223372036854775808"), None);
    assert_eq!(read_decimal("12.5e-9223372036854775807"), Some(dec(125, i64::MIN)));
    assert_eq!(read_decimal("1.5e-9223372036854775808"), None);
    assert_eq!(
        read_decimal("9223372036854775807"),
        Some(dec(i64::MAX, 0))
    );
    assert_eq!(read_decimal("92233720368547758.08"), None);
    assert_eq!(
        read_decimal("-922337203685477580.8"),
        Some(dec(i64::MIN, -1))
    );
}

#[test]
fn integer_answers() {
    assert_eq!(read_answer(InputKind::Integer, "+5"), Some(InputValue::Integer(5)));
    assert_eq!(read_answer(InputKind::Integer, "-2147483648"), Some(InputValue::Integer(i32::MIN)));
    assert_eq!(read_answer(InputKind::Integer, "2147483648"), None);
    assert_eq!(read_answer(InputKind::Integer, "1e3"), None);
}

#[test]
fn molt_size_with_exponent_completes() {
    let mut store = ConversationStore::new();
    store.begin(9, InputKind::Decimal, DialogueState::RecordMolt { tarantula_id: 1 });
    assert_eq!(
        store.resolve(9, "1e1"),
        ConversationOutcome::Completed(
            DialogueState::RecordMolt { tarantula_id: 1 },
            InputValue::Decimal(dec(1, 1))
        )
    );
    assert_eq!(store.state(9), DialogueState::Start);
}
