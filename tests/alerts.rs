use tarantula_bot::models::{ColonyStatus, CricketSize, HealthAlert, TarantulaListItem};
use tarantula_bot::notify::{
    alert_message, classify_feeding, colony_message, contains_text, feeding_message,
    health_message, plan_tick, AlertCategory, AlertSet, DeliveryRun, FeedingClass,
};
use tarantula_bot::registry::RecipientRegistry;

fn item(name: &str, species: &str, days: Option<i32>, status: &str) -> TarantulaListItem {
    TarantulaListItem {
        id: 1,
        name: name.to_string(),
        species_name: species.to_string(),
        enclosure_number: None,
        days_since_feeding: days,
        current_status: status.to_string(),
    }
}

fn alert(name: &str, kind: &str) -> HealthAlert {
    HealthAlert {
        id: 1,
        name: name.to_string(),
        scientific_name: String::new(),
        alert_type: kind.to_string(),
        days_in_state: 0,
    }
}

fn colony(name: &str, hundredths: Option<i64>) -> ColonyStatus {
    ColonyStatus {
        id: 1,
        colony_name: name.to_string(),
        current_count: 10,
        size_type: CricketSize::Small,
        crickets_used_7_days: 3,
        weeks_remaining_hundredths: hundredths,
    }
}

fn three_due() -> Vec<TarantulaListItem> {
    vec![
        item("Rosie", "G. rosea", None, "Never fed"),
        item("Boots", "B. hamorii", Some(12), "Overdue by 5 days"),
        item("Blue", "C. cyaneopubescens", Some(7), "Due"),
    ]
}

const THREE_DUE_TEXT: &str = "🍽 *Feeding Due*\n\n\
❗️ *Never Fed*\n• Rosie (G. rosea)\n\n\
⚠️ *Overdue*\n• Boots - Overdue by 5 days (12 days since last feeding)\n\n\
📅 *Due for Feeding*\n• Blue - 7 days since last feeding\n";

#[test]
fn feeding_tick_reaches_every_recipient() {
    let mut reg = RecipientRegistry::new();
    reg.register(100, 1);
    reg.register(200, 2);
    let plan = plan_tick(&reg.snapshot(), &Some(AlertSet::Feeding(three_due())));
    assert_eq!(plan.len(), 2);
    assert_eq!(plan[0].chat_id, 1);
    assert_eq!(plan[1].chat_id, 2);
    assert_eq!(plan[0].text, THREE_DUE_TEXT);
    assert_eq!(plan[1].text, plan[0].text);

    let mut run = DeliveryRun::new(plan);
    let mut sent: Vec<i64> = Vec::new();
    while let Some(d) = run.current() {
        sent.push(d.chat_id);
        let delivered = d.chat_id != 1;
        run.report(delivered);
    }
    assert_eq!(sent, vec![1, 2]);
    assert_eq!(run.failures(), 1);
}

#[test]
fn failed_query_or_nothing_to_report_sends_nothing() {
    let recipients = vec![1, 2, 3];
    assert!(plan_tick(&recipients, &None).is_empty());
    assert!(plan_tick(&recipients, &Some(AlertSet::Feeding(Vec::new()))).is_empty());
    assert!(plan_tick(&recipients, &Some(AlertSet::Health(vec![alert("A", "Monitor")]))).is_empty());
    assert!(plan_tick(&recipients, &Some(AlertSet::Colony(vec![colony("C", Some(200))]))).is_empty());
    assert!(plan_tick(&Vec::new(), &Some(AlertSet::Feeding(three_due()))).is_empty());
}

#[test]
fn feeding_sections_only_when_present() {
    let only_due = vec![item("Blue", "C. cyaneopubescens", None, "Due soon")];
    assert_eq!(
        feeding_message(&only_due).unwrap(),
        "🍽 *Feeding Due*\n\n📅 *Due for Feeding*\n• Blue - 0 days since last feeding\n"
    );
    assert_eq!(feeding_message(&Vec::new()), None);
    assert_eq!(feeding_message(&three_due()).unwrap(), THREE_DUE_TEXT);
}

#[test]
fn feeding_classes() {
    assert_eq!(classify_feeding("Never fed"), FeedingClass::NeverFed);
    assert_eq!(classify_feeding("Overdue (Never fed)"), FeedingClass::NeverFed);
    assert_eq!(classify_feeding("Overdue by 3 days"), FeedingClass::Overdue);
    assert_eq!(classify_feeding("never fed"), FeedingClass::Due);
    assert_eq!(classify_feeding(""), FeedingClass::Due);
}

#[test]
fn substring_search() {
    assert!(contains_text("abc", ""));
    assert!(contains_text("abc", "abc"));
    assert!(contains_text("xxabcxx", "bc"));
    assert!(!contains_text("ab", "abc"));
    assert!(!contains_text("aXbc", "abc"));
    assert!(contains_text("ééa", "éa"));
}

#[test]
fn critical_health_alerts_only() {
    let alerts = vec![alert("A", "Monitor"), alert("B", "Critical"), alert("C", "critical")];
    assert_eq!(
        health_message(&alerts).unwrap(),
        "🚨 *Critical Health Alerts*\n\n• B - Critical\n"
    );
    assert_eq!(health_message(&vec![alert("A", "Monitor")]), None);
}

#[test]
fn low_colonies_only() {
    let cs = vec![
        colony("Big", Some(350)),
        colony("Low", Some(150)),
        colony("Unknown", None),
        colony("Edge", Some(200)),
        colony("Negative", Some(-70)),
        colony("AlmostTwo", Some(196)),
        colony("Under", Some(194)),
    ];
    assert_eq!(
        colony_message(&cs).unwrap(),
        "🦗 *Low Cricket Colony Alert*\n\n\
• Low - 1.5 weeks remaining\n\
• Unknown - 0.0 weeks remaining\n\
• Negative - -0.7 weeks remaining\n\
• AlmostTwo - 2.0 weeks remaining\n\
• Under - 1.9 weeks remaining\n"
    );
    assert_eq!(colony_message(&vec![colony("Big", Some(350))]), None);
}

#[test]
fn alert_message_per_set() {
    assert_eq!(
        alert_message(&AlertSet::Health(vec![alert("B", "Critical")])).unwrap(),
        "🚨 *Critical Health Alerts*\n\n• B - Critical\n"
    );
    assert_eq!(alert_message(&AlertSet::Colony(Vec::new())), None);
}

#[test]
fn intervals() {
    assert_eq!(AlertCategory::Feeding.interval_secs(), 86400);
    assert_eq!(AlertCategory::Health.interval_secs(), 3600);
    assert_eq!(AlertCategory::Colony.interval_secs(), 86400);
}

#[test]
fn registry_upsert_keeps_order() {
    let mut reg = RecipientRegistry::new();
    assert!(reg.snapshot().is_empty());
    reg.register(1, 10);
    reg.register(2, 20);
    let before = reg.snapshot();
    reg.register(1, 11);
    reg.register(3, 30);
    assert_eq!(before, vec![10, 20]);
    assert_eq!(reg.snapshot(), vec![11, 20, 30]);
    reg.register(3, 30);
    assert_eq!(reg.snapshot(), vec![11, 20, 30]);
}
