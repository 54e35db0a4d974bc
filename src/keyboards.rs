//! The inline keyboards: rows of buttons, each carrying the action that a
//! press sends back.
use vstd::prelude::*;

use crate::action::BotCallback;
use crate::models::ColonyStatus;

verus! {

/// A button: its label, and the action it sends.
pub struct Button {
    pub label: String,
    pub action: BotCallback,
}

pub open spec fn button_view(b: Button) -> (Seq<char>, BotCallback) {
    (b.label@, b.action)
}

pub open spec fn row_view(r: Vec<Button>) -> Seq<(Seq<char>, BotCallback)> {
    r@.map_values(|b: Button| button_view(b))
}

/// The labels and actions of a keyboard, row by row.
pub open spec fn layout(k: Seq<Vec<Button>>) -> Seq<Seq<(Seq<char>, BotCallback)>> {
    k.map_values(|r: Vec<Button>| row_view(r))
}

/// A button labelled `label` that sends `action`.
pub fn button(label: &str, action: BotCallback) -> (r: Button)
    ensures
        r.label@ == label@,
        r.action == action,
{
    Button { label: String::from_str(label), action }
}

/// The main menu.
pub fn welcome_keyboard() -> (r: Vec<Vec<Button>>)
    ensures
        layout(r@) == seq![
            seq![("🕷 List Tarantulas"@, BotCallback::ListTarantulas), ("📊 Status Overview"@, BotCallback::StatusOverview)],
            seq![("🍽 Due Feedings"@, BotCallback::FeedingSchedule), ("📝 Record Feeding"@, BotCallback::RecordFeeding)],
            seq![("🏥 Health Alerts"@, BotCallback::HealthAlerts), ("🔍 Record Health Check"@, BotCallback::RecordHealthCheck)],
            seq![("🐾 Recent Molts"@, BotCallback::MoltHistory), ("📝 Record Molt"@, BotCallback::RecordMolt)],
            seq![("🦗 Colony Status"@, BotCallback::Colonies), ("🧰 Colony Maintenance"@, BotCallback::ColonyMaintenance)],
            seq![("🧹 Maintenance Tasks"@, BotCallback::Maintenance), ("📋 View Records"@, BotCallback::ViewRecords)],
        ],
{
    let mut k: Vec<Vec<Button>> = Vec::new();
    let mut row: Vec<Button> = Vec::new();
    row.push(button("🕷 List Tarantulas", BotCallback::ListTarantulas));
    row.push(button("📊 Status Overview", BotCallback::StatusOverview));
    k.push(row);
    let mut row: Vec<Button> = Vec::new();
    row.push(button("🍽 Due Feedings", BotCallback::FeedingSchedule));
    row.push(button("📝 Record Feeding", BotCallback::RecordFeeding));
    k.push(row);
    let mut row: Vec<Button> = Vec::new();
    row.push(button("🏥 Health Alerts", BotCallback::HealthAlerts));
    row.push(button("🔍 Record Health Check", BotCallback::RecordHealthCheck));
    k.push(row);
    let mut row: Vec<Button> = Vec::new();
    row.push(button("🐾 Recent Molts", BotCallback::MoltHistory));
    row.push(button("📝 Record Molt", BotCallback::RecordMolt));
    k.push(row);
    let mut row: Vec<Button> = Vec::new();
    row.push(button("🦗 Colony Status", BotCallback::Colonies));
    row.push(button("🧰 Colony Maintenance", BotCallback::ColonyMaintenance));
    k.push(row);
    let mut row: Vec<Button> = Vec::new();
    row.push(button("🧹 Maintenance Tasks", BotCallback::Maintenance));
    row.push(button("📋 View Records", BotCallback::ViewRecords));
    k.push(row);
    assert(layout(k@) =~~= seq![
        seq![("🕷 List Tarantulas"@, BotCallback::ListTarantulas), ("📊 Status Overview"@, BotCallback::StatusOverview)],
        seq![("🍽 Due Feedings"@, BotCallback::FeedingSchedule), ("📝 Record Feeding"@, BotCallback::RecordFeeding)],
        seq![("🏥 Health Alerts"@, BotCallback::HealthAlerts), ("🔍 Record Health Check"@, BotCallback::RecordHealthCheck)],
        seq![("🐾 Recent Molts"@, BotCallback::MoltHistory), ("📝 Record Molt"@, BotCallback::RecordMolt)],
        seq![("🦗 Colony Status"@, BotCallback::Colonies), ("🧰 Colony Maintenance"@, BotCallback::ColonyMaintenance)],
        seq![("🧹 Maintenance Tasks"@, BotCallback::Maintenance), ("📋 View Records"@, BotCallback::ViewRecords)],
    ]);
    k
}

/// A single button back to the main menu.
pub fn back_to_menu_keyboard() -> (r: Vec<Vec<Button>>)
    ensures
        layout(r@) == seq![
            seq![("« Back to Menu"@, BotCallback::MainMenu)],
        ],
{
    let mut k: Vec<Vec<Button>> = Vec::new();
    let mut row: Vec<Button> = Vec::new();
    row.push(button("« Back to Menu", BotCallback::MainMenu));
    k.push(row);
    assert(layout(k@) =~~= seq![
        seq![("« Back to Menu"@, BotCallback::MainMenu)],
    ]);
    k
}

/// How many crickets to feed `tarantula_id` from `colony_id`.
pub fn feed_count_selection_keyboard(tarantula_id: i64, colony_id: i64) -> (r: Vec<Vec<Button>>)
    ensures
        layout(r@) == seq![
            seq![("1 cricket"@, BotCallback::FeedConfirm(tarantula_id, colony_id, 1)), ("2 crickets"@, BotCallback::FeedConfirm(tarantula_id, colony_id, 2))],
            seq![("3 crickets"@, BotCallback::FeedConfirm(tarantula_id, colony_id, 3)), ("5 crickets"@, BotCallback::FeedConfirm(tarantula_id, colony_id, 5))],
            seq![("« Cancel"@, BotCallback::MainMenu)],
        ],
{
    let mut k: Vec<Vec<Button>> = Vec::new();
    let mut row: Vec<Button> = Vec::new();
    row.push(button("1 cricket", BotCallback::FeedConfirm(tarantula_id, colony_id, 1)));
    row.push(button("2 crickets", BotCallback::FeedConfirm(tarantula_id, colony_id, 2)));
    k.push(row);
    let mut row: Vec<Button> = Vec::new();
    row.push(button("3 crickets", BotCallback::FeedConfirm(tarantula_id, colony_id, 3)));
    row.push(button("5 crickets", BotCallback::FeedConfirm(tarantula_id, colony_id, 5)));
    k.push(row);
    let mut row: Vec<Button> = Vec::new();
    row.push(button("« Cancel", BotCallback::MainMenu));
    k.push(row);
    assert(layout(k@) =~~= seq![
        seq![("1 cricket"@, BotCallback::FeedConfirm(tarantula_id, colony_id, 1)), ("2 crickets"@, BotCallback::FeedConfirm(tarantula_id, colony_id, 2))],
        seq![("3 crickets"@, BotCallback::FeedConfirm(tarantula_id, colony_id, 3)), ("5 crickets"@, BotCallback::FeedConfirm(tarantula_id, colony_id, 5))],
        seq![("« Cancel"@, BotCallback::MainMenu)],
    ]);
    k
}

/// The health status to record for `tarantula_id`.
pub fn health_check_keyboard(tarantula_id: i64) -> (r: Vec<Vec<Button>>)
    ensures
        layout(r@) == seq![
            seq![("✅ Healthy"@, BotCallback::HealthStatus(tarantula_id, 1))],
            seq![("⚠️ Monitor"@, BotCallback::HealthStatus(tarantula_id, 2))],
            seq![("🚨 Critical"@, BotCallback::HealthStatus(tarantula_id, 3))],
            seq![("« Cancel"@, BotCallback::MainMenu)],
        ],
{
    let mut k: Vec<Vec<Button>> = Vec::new();
    let mut row: Vec<Button> = Vec::new();
    row.push(button("✅ Healthy", BotCallback::HealthStatus(tarantula_id, 1)));
    k.push(row);
    let mut row: Vec<Button> = Vec::new();
    row.push(button("⚠️ Monitor", BotCallback::HealthStatus(tarantula_id, 2)));
    k.push(row);
    let mut row: Vec<Button> = Vec::new();
    row.push(button("🚨 Critical", BotCallback::HealthStatus(tarantula_id, 3)));
    k.push(row);
    let mut row: Vec<Button> = Vec::new();
    row.push(button("« Cancel", BotCallback::MainMenu));
    k.push(row);
    assert(layout(k@) =~~= seq![
        seq![("✅ Healthy"@, BotCallback::HealthStatus(tarantula_id, 1))],
        seq![("⚠️ Monitor"@, BotCallback::HealthStatus(tarantula_id, 2))],
        seq![("🚨 Critical"@, BotCallback::HealthStatus(tarantula_id, 3))],
        seq![("« Cancel"@, BotCallback::MainMenu)],
    ]);
    k
}

/// The adjustments offered for the count of `colony_id`.
pub fn colony_count_keyboard(colony_id: i64) -> (r: Vec<Vec<Button>>)
    ensures
        layout(r@) == seq![
            seq![("-10"@, BotCallback::ColonyCountUpdate(colony_id, -10i32)), ("-5"@, BotCallback::ColonyCountUpdate(colony_id, -5i32))],
            seq![("+1"@, BotCallback::ColonyCountUpdate(colony_id, 1)), ("+5"@, BotCallback::ColonyCountUpdate(colony_id, 5)), ("+10"@, BotCallback::ColonyCountUpdate(colony_id, 10)), ("+50"@, BotCallback::ColonyCountUpdate(colony_id, 50))],
            seq![("« Cancel"@, BotCallback::MainMenu)],
        ],
{
    let mut k: Vec<Vec<Button>> = Vec::new();
    let mut row: Vec<Button> = Vec::new();
    row.push(button("-10", BotCallback::ColonyCountUpdate(colony_id, -10i32)));
    row.push(button("-5", BotCallback::ColonyCountUpdate(colony_id, -5i32)));
    k.push(row);
    let mut row: Vec<Button> = Vec::new();
    row.push(button("+1", BotCallback::ColonyCountUpdate(colony_id, 1)));
    row.push(button("+5", BotCallback::ColonyCountUpdate(colony_id, 5)));
    row.push(button("+10", BotCallback::ColonyCountUpdate(colony_id, 10)));
    row.push(button("+50", BotCallback::ColonyCountUpdate(colony_id, 50)));
    k.push(row);
    let mut row: Vec<Button> = Vec::new();
    row.push(button("« Cancel", BotCallback::MainMenu));
    k.push(row);
    assert(layout(k@) =~~= seq![
        seq![("-10"@, BotCallback::ColonyCountUpdate(colony_id, -10i32)), ("-5"@, BotCallback::ColonyCountUpdate(colony_id, -5i32))],
        seq![("+1"@, BotCallback::ColonyCountUpdate(colony_id, 1)), ("+5"@, BotCallback::ColonyCountUpdate(colony_id, 5)), ("+10"@, BotCallback::ColonyCountUpdate(colony_id, 10)), ("+50"@, BotCallback::ColonyCountUpdate(colony_id, 50))],
        seq![("« Cancel"@, BotCallback::MainMenu)],
    ]);
    k
}

/// The kinds of records to view.
pub fn view_records_keyboard() -> (r: Vec<Vec<Button>>)
    ensures
        layout(r@) == seq![
            seq![("Feeding Records"@, BotCallback::ViewFeedingRecords), ("Health Records"@, BotCallback::ViewHealthRecords)],
            seq![("Molt Records"@, BotCallback::ViewMoltRecords)],
            seq![("« Back to Menu"@, BotCallback::MainMenu)],
        ],
{
    let mut k: Vec<Vec<Button>> = Vec::new();
    let mut row: Vec<Button> = Vec::new();
    row.push(button("Feeding Records", BotCallback::ViewFeedingRecords));
    row.push(button("Health Records", BotCallback::ViewHealthRecords));
    k.push(row);
    let mut row: Vec<Button> = Vec::new();
    row.push(button("Molt Records", BotCallback::ViewMoltRecords));
    k.push(row);
    let mut row: Vec<Button> = Vec::new();
    row.push(button("« Back to Menu", BotCallback::MainMenu));
    k.push(row);
    assert(layout(k@) =~~= seq![
        seq![("Feeding Records"@, BotCallback::ViewFeedingRecords), ("Health Records"@, BotCallback::ViewHealthRecords)],
        seq![("Molt Records"@, BotCallback::ViewMoltRecords)],
        seq![("« Back to Menu"@, BotCallback::MainMenu)],
    ]);
    k
}

/// What can be done for colony `colony_id`.
pub fn colony_maintenance_keyboard(colony_id: i64) -> (r: Vec<Vec<Button>>)
    ensures
        layout(r@) == seq![
            seq![("📝 Update Count"@, BotCallback::ColonyGetCount(colony_id))],
            seq![("« Cancel"@, BotCallback::MainMenu)],
        ],
{
    let mut k: Vec<Vec<Button>> = Vec::new();
    let mut row: Vec<Button> = Vec::new();
    row.push(button("📝 Update Count", BotCallback::ColonyGetCount(colony_id)));
    k.push(row);
    let mut row: Vec<Button> = Vec::new();
    row.push(button("« Cancel", BotCallback::MainMenu));
    k.push(row);
    assert(layout(k@) =~~= seq![
        seq![("📝 Update Count"@, BotCallback::ColonyGetCount(colony_id))],
        seq![("« Cancel"@, BotCallback::MainMenu)],
    ]);
    k
}
/// A single button back to the list of record kinds.
pub fn back_to_records_keyboard() -> (r: Vec<Vec<Button>>)
    ensures
        layout(r@) == seq![seq![("« Back to Records"@, BotCallback::ViewRecords)]],
{
    let mut k: Vec<Vec<Button>> = Vec::new();
    let mut row: Vec<Button> = Vec::new();
    row.push(button("« Back to Records", BotCallback::ViewRecords));
    k.push(row);
    assert(layout(k@) =~~= seq![seq![("« Back to Records"@, BotCallback::ViewRecords)]]);
    k
}

/// A single button back to the list of tarantulas.
pub fn back_to_list_keyboard() -> (r: Vec<Vec<Button>>)
    ensures
        layout(r@) == seq![seq![("« Back"@, BotCallback::ListTarantulas)]],
{
    let mut k: Vec<Vec<Button>> = Vec::new();
    let mut row: Vec<Button> = Vec::new();
    row.push(button("« Back", BotCallback::ListTarantulas));
    k.push(row);
    assert(layout(k@) =~~= seq![seq![("« Back"@, BotCallback::ListTarantulas)]]);
    k
}

/// Adds a row with the button back to the main menu.
pub fn with_back_button(k: &mut Vec<Vec<Button>>)
    ensures
        layout(final(k)@) == layout(old(k)@).push(seq![("« Back to Menu"@, BotCallback::MainMenu)]),
{
    let mut row: Vec<Button> = Vec::new();
    row.push(button("« Back to Menu", BotCallback::MainMenu));
    k.push(row);
    assert(layout(k@) =~~= layout(old(k)@).push(seq![("« Back to Menu"@, BotCallback::MainMenu)]));
}

/// The button that picks colony `c` to feed `tarantula_id` from.
pub open spec fn colony_choice(tarantula_id: i64, c: ColonyStatus) -> (Seq<char>, BotCallback) {
    (
        c.colony_name@ + " ("@ + c.size_type.db_name() + ")"@,
        BotCallback::FeedSelectColony(tarantula_id, c.id),
    )
}

/// The colonies to feed `tarantula_id` from, two per row in order, then a
/// row to cancel.
pub fn feed_command_keyboard(tarantula_id: i64, colonies: &Vec<ColonyStatus>) -> (r: Vec<Vec<Button>>)
    ensures
        r@.len() == (colonies@.len() + 1) / 2 + 1,
        forall|j: int| 0 <= j < (colonies@.len() + 1) / 2 ==> #[trigger] row_view(r@[j]) == if 2 * j + 1
            < colonies@.len() {
            seq![
                colony_choice(tarantula_id, colonies@[2 * j]),
                colony_choice(tarantula_id, colonies@[2 * j + 1]),
            ]
        } else {
            seq![colony_choice(tarantula_id, colonies@[2 * j])]
        },
        row_view(r@.last()) == seq![("« Cancel"@, BotCallback::MainMenu)],
{
    let mut k: Vec<Vec<Button>> = Vec::new();
    let mut i: usize = 0;
    while i < colonies.len()
        invariant
            i <= colonies@.len(),
            i == (if 2 * k@.len() <= colonies@.len() { 2 * k@.len() } else { colonies@.len() }),
            k@.len() <= (colonies@.len() + 1) / 2,
            forall|j: int| 0 <= j < k@.len() ==> #[trigger] row_view(k@[j]) == if 2 * j + 1
                < colonies@.len() {
                seq![
                    colony_choice(tarantula_id, colonies@[2 * j]),
                    colony_choice(tarantula_id, colonies@[2 * j + 1]),
                ]
            } else {
                seq![colony_choice(tarantula_id, colonies@[2 * j])]
            },
        decreases colonies.len() - i,
    {
        let mut row: Vec<Button> = Vec::new();
        row.push(colony_button(tarantula_id, &colonies[i]));
        if i + 1 < colonies.len() {
            row.push(colony_button(tarantula_id, &colonies[i + 1]));
        }
        let ghost j = k@.len() as int;
        k.push(row);
        assert(row_view(k@[j]) =~= if 2 * j + 1 < colonies@.len() {
            seq![
                colony_choice(tarantula_id, colonies@[2 * j]),
                colony_choice(tarantula_id, colonies@[2 * j + 1]),
            ]
        } else {
            seq![colony_choice(tarantula_id, colonies@[2 * j])]
        });
        i = if i + 1 < colonies.len() { i + 2 } else { colonies.len() };
    }
    let mut row: Vec<Button> = Vec::new();
    row.push(button("« Cancel", BotCallback::MainMenu));
    k.push(row);
    assert(row_view(k@.last()) =~= seq![("« Cancel"@, BotCallback::MainMenu)]);
    k
}

fn colony_button(tarantula_id: i64, c: &ColonyStatus) -> (r: Button)
    ensures
        button_view(r) == colony_choice(tarantula_id, *c),
{
    let mut label = String::from_str(c.colony_name.as_str());
    label.append(" (");
    label.append(c.size_type.to_db_name());
    label.append(")");
    Button { label, action: BotCallback::FeedSelectColony(tarantula_id, c.id) }
}

fn copy_button(b: &Button) -> (r: Button)
    ensures
        button_view(r) == button_view(*b),
{
    Button { label: b.label.clone(), action: b.action }
}

/// The choices `choices` two per row, in order, then a row back to the
/// main menu.
pub fn pick_rows(choices: &Vec<Button>) -> (r: Vec<Vec<Button>>)
    ensures
        r@.len() == (choices@.len() + 1) / 2 + 1,
        forall|j: int| 0 <= j < (choices@.len() + 1) / 2 ==> #[trigger] row_view(r@[j]) == if 2 * j + 1
            < choices@.len() {
            seq![button_view(choices@[2 * j]), button_view(choices@[2 * j + 1])]
        } else {
            seq![button_view(choices@[2 * j])]
        },
        row_view(r@.last()) == seq![("« Back to Menu"@, BotCallback::MainMenu)],
{
    let mut k: Vec<Vec<Button>> = Vec::new();
    let mut i: usize = 0;
    while i < choices.len()
        invariant
            i <= choices@.len(),
            i == (if 2 * k@.len() <= choices@.len() { 2 * k@.len() } else { choices@.len() }),
            k@.len() <= (choices@.len() + 1) / 2,
            forall|j: int| 0 <= j < k@.len() ==> #[trigger] row_view(k@[j]) == if 2 * j + 1
                < choices@.len() {
                seq![button_view(choices@[2 * j]), button_view(choices@[2 * j + 1])]
            } else {
                seq![button_view(choices@[2 * j])]
            },
        decreases choices.len() - i,
    {
        let mut row: Vec<Button> = Vec::new();
        row.push(copy_button(&choices[i]));
        if i + 1 < choices.len() {
            row.push(copy_button(&choices[i + 1]));
        }
        let ghost j = k@.len() as int;
        k.push(row);
        assert(row_view(k@[j]) =~= if 2 * j + 1 < choices@.len() {
            seq![button_view(choices@[2 * j]), button_view(choices@[2 * j + 1])]
        } else {
            seq![button_view(choices@[2 * j])]
        });
        i = if i + 1 < choices.len() { i + 2 } else { choices.len() };
    }
    let ghost before = k@;
    with_back_button(&mut k);
    assert(row_view(k@.last()) == layout(k@).last());
    assert forall|j: int| 0 <= j < before.len() implies #[trigger] row_view(k@[j]) == row_view(
        before[j],
    ) by {
        assert(layout(k@)[j] == layout(before)[j]);
    }
    k
}

} // verus!
