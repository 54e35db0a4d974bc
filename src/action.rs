//! Actions and their tokens: a closed set of variants, each with a fixed
//! tag and fixed integer fields, written as `tag_field0_field1` and read
//! back by the longest matching tag.
use vstd::prelude::*;

use crate::number::{
    chars_of, fits, is_digit, lemma_parse_render, lemma_render_len, parse_field, parse_segment,
    push_int, render_int, IntWidth,
};

verus! {

/// The variants of [`BotCallback`], without their fields.
#[derive(Clone, Copy, PartialEq, Eq, Structural, Debug)]
pub enum ActionKind {
    MainMenu,
    ListTarantulas,
    FeedingSchedule,
    HealthAlerts,
    Maintenance,
    Colonies,
    StatusOverview,
    RecordFeeding,
    RecordHealthCheck,
    MoltHistory,
    RecordMolt,
    ColonyMaintenance,
    ViewRecords,
    ViewFeedingRecords,
    ViewHealthRecords,
    ViewMoltRecords,
    FeedTarantula,
    HealthCheck,
    HealthStatus,
    MoltSimple,
    ColonyMaintenanceMenu,
    FeedSelectColony,
    FeedConfirm,
    ColonyGetCount,
    ColonyCountUpdate,
    ViewFeedingSchedule,
}

/// The wire tag of each variant.
pub open spec fn tag_spec(k: ActionKind) -> Seq<char> {
    match k {
        ActionKind::MainMenu => "main_menu"@,
        ActionKind::ListTarantulas => "list_tarantulas"@,
        ActionKind::FeedingSchedule => "feeding_schedule"@,
        ActionKind::HealthAlerts => "health_alerts"@,
        ActionKind::Maintenance => "maintenance"@,
        ActionKind::Colonies => "colonies"@,
        ActionKind::StatusOverview => "status_overview"@,
        ActionKind::RecordFeeding => "record_feeding"@,
        ActionKind::RecordHealthCheck => "record_health_check"@,
        ActionKind::MoltHistory => "molt_history"@,
        ActionKind::RecordMolt => "record_molt"@,
        ActionKind::ColonyMaintenance => "colony_maintenance"@,
        ActionKind::ViewRecords => "view_records"@,
        ActionKind::ViewFeedingRecords => "view_feeding_records"@,
        ActionKind::ViewHealthRecords => "view_health_records"@,
        ActionKind::ViewMoltRecords => "view_molt_records"@,
        ActionKind::FeedTarantula => "feed_tarantula"@,
        ActionKind::HealthCheck => "health_check"@,
        ActionKind::HealthStatus => "health_status"@,
        ActionKind::MoltSimple => "molt_simple"@,
        ActionKind::ColonyMaintenanceMenu => "colony_maintenance_menu"@,
        ActionKind::FeedSelectColony => "feed_select_colony"@,
        ActionKind::FeedConfirm => "feed_confirm"@,
        ActionKind::ColonyGetCount => "colony_get_count"@,
        ActionKind::ColonyCountUpdate => "colony_count_update"@,
        ActionKind::ViewFeedingSchedule => "view_feeding_schedule"@,
    }
}

pub open spec fn tag_char(c: char) -> bool {
    ('a' <= c && c <= 'z') || c == '_'
}

/// A tag is a non-empty run of lower-case letters and underscores that
/// neither starts nor ends with an underscore.
pub open spec fn well_formed_tag(t: Seq<char>) -> bool {
    &&& t.len() > 0
    &&& t[0] != '_'
    &&& t.last() != '_'
    &&& forall|i: int| 0 <= i < t.len() ==> tag_char(#[trigger] t[i])
}

pub proof fn lemma_tags_well_formed(k: ActionKind)
    ensures
        well_formed_tag(tag_spec(k)),
        tag_spec(k).len() <= 23,
{
    reveal_strlit("main_menu");
    reveal_strlit("list_tarantulas");
    reveal_strlit("feeding_schedule");
    reveal_strlit("health_alerts");
    reveal_strlit("maintenance");
    reveal_strlit("colonies");
    reveal_strlit("status_overview");
    reveal_strlit("record_feeding");
    reveal_strlit("record_health_check");
    reveal_strlit("molt_history");
    reveal_strlit("record_molt");
    reveal_strlit("colony_maintenance");
    reveal_strlit("view_records");
    reveal_strlit("view_feeding_records");
    reveal_strlit("view_health_records");
    reveal_strlit("view_molt_records");
    reveal_strlit("feed_tarantula");
    reveal_strlit("health_check");
    reveal_strlit("health_status");
    reveal_strlit("molt_simple");
    reveal_strlit("colony_maintenance_menu");
    reveal_strlit("feed_select_colony");
    reveal_strlit("feed_confirm");
    reveal_strlit("colony_get_count");
    reveal_strlit("colony_count_update");
    reveal_strlit("view_feeding_schedule");
}

pub proof fn lemma_tags_distinct(k1: ActionKind, k2: ActionKind)
    ensures
        tag_spec(k1) == tag_spec(k2) ==> k1 == k2,
{
    reveal_strlit("main_menu");
    reveal_strlit("list_tarantulas");
    reveal_strlit("feeding_schedule");
    reveal_strlit("health_alerts");
    reveal_strlit("maintenance");
    reveal_strlit("colonies");
    reveal_strlit("status_overview");
    reveal_strlit("record_feeding");
    reveal_strlit("record_health_check");
    reveal_strlit("molt_history");
    reveal_strlit("record_molt");
    reveal_strlit("colony_maintenance");
    reveal_strlit("view_records");
    reveal_strlit("view_feeding_records");
    reveal_strlit("view_health_records");
    reveal_strlit("view_molt_records");
    reveal_strlit("feed_tarantula");
    reveal_strlit("health_check");
    reveal_strlit("health_status");
    reveal_strlit("molt_simple");
    reveal_strlit("colony_maintenance_menu");
    reveal_strlit("feed_select_colony");
    reveal_strlit("feed_confirm");
    reveal_strlit("colony_get_count");
    reveal_strlit("colony_count_update");
    reveal_strlit("view_feeding_schedule");
    let t1 = tag_spec(k1);
    let t2 = tag_spec(k2);
    if t1 == t2 {
        assert(t1.len() == t2.len());
        assert(t1[0] == t2[0]);
        assert(t1[1] == t2[1]);
        assert(t1[7] == t2[7]);
    }
}

/// One user-triggerable intent, with its fields.
#[derive(Clone, Copy, PartialEq, Eq, Structural, Debug)]
pub enum BotCallback {
    MainMenu,
    ListTarantulas,
    FeedingSchedule,
    HealthAlerts,
    Maintenance,
    Colonies,
    StatusOverview,
    RecordFeeding,
    RecordHealthCheck,
    MoltHistory,
    RecordMolt,
    ColonyMaintenance,
    ViewRecords,
    ViewFeedingRecords,
    ViewHealthRecords,
    ViewMoltRecords,
    FeedTarantula(i64),
    HealthCheck(i64),
    HealthStatus(i64, i64),
    MoltSimple(i64),
    ColonyMaintenanceMenu(i64),
    FeedSelectColony(i64, i64),
    FeedConfirm(i64, i64, i32),
    ColonyGetCount(i64),
    ColonyCountUpdate(i64, i32),
    ViewFeedingSchedule(i64),
}

impl BotCallback {
    /// The variant of this action.
    pub open spec fn kind_of(self) -> ActionKind {
        match self {
            BotCallback::MainMenu => ActionKind::MainMenu,
            BotCallback::ListTarantulas => ActionKind::ListTarantulas,
            BotCallback::FeedingSchedule => ActionKind::FeedingSchedule,
            BotCallback::HealthAlerts => ActionKind::HealthAlerts,
            BotCallback::Maintenance => ActionKind::Maintenance,
            BotCallback::Colonies => ActionKind::Colonies,
            BotCallback::StatusOverview => ActionKind::StatusOverview,
            BotCallback::RecordFeeding => ActionKind::RecordFeeding,
            BotCallback::RecordHealthCheck => ActionKind::RecordHealthCheck,
            BotCallback::MoltHistory => ActionKind::MoltHistory,
            BotCallback::RecordMolt => ActionKind::RecordMolt,
            BotCallback::ColonyMaintenance => ActionKind::ColonyMaintenance,
            BotCallback::ViewRecords => ActionKind::ViewRecords,
            BotCallback::ViewFeedingRecords => ActionKind::ViewFeedingRecords,
            BotCallback::ViewHealthRecords => ActionKind::ViewHealthRecords,
            BotCallback::ViewMoltRecords => ActionKind::ViewMoltRecords,
            BotCallback::FeedTarantula(..) => ActionKind::FeedTarantula,
            BotCallback::HealthCheck(..) => ActionKind::HealthCheck,
            BotCallback::HealthStatus(..) => ActionKind::HealthStatus,
            BotCallback::MoltSimple(..) => ActionKind::MoltSimple,
            BotCallback::ColonyMaintenanceMenu(..) => ActionKind::ColonyMaintenanceMenu,
            BotCallback::FeedSelectColony(..) => ActionKind::FeedSelectColony,
            BotCallback::FeedConfirm(..) => ActionKind::FeedConfirm,
            BotCallback::ColonyGetCount(..) => ActionKind::ColonyGetCount,
            BotCallback::ColonyCountUpdate(..) => ActionKind::ColonyCountUpdate,
            BotCallback::ViewFeedingSchedule(..) => ActionKind::ViewFeedingSchedule,
        }
    }

    /// The fields of this action, in order.
    pub open spec fn fields_of(self) -> Seq<int> {
        match self {
            BotCallback::MainMenu => seq![],
            BotCallback::ListTarantulas => seq![],
            BotCallback::FeedingSchedule => seq![],
            BotCallback::HealthAlerts => seq![],
            BotCallback::Maintenance => seq![],
            BotCallback::Colonies => seq![],
            BotCallback::StatusOverview => seq![],
            BotCallback::RecordFeeding => seq![],
            BotCallback::RecordHealthCheck => seq![],
            BotCallback::MoltHistory => seq![],
            BotCallback::RecordMolt => seq![],
            BotCallback::ColonyMaintenance => seq![],
            BotCallback::ViewRecords => seq![],
            BotCallback::ViewFeedingRecords => seq![],
            BotCallback::ViewHealthRecords => seq![],
            BotCallback::ViewMoltRecords => seq![],
            BotCallback::FeedTarantula(a) => seq![a as int],
            BotCallback::HealthCheck(a) => seq![a as int],
            BotCallback::HealthStatus(a, b) => seq![a as int, b as int],
            BotCallback::MoltSimple(a) => seq![a as int],
            BotCallback::ColonyMaintenanceMenu(a) => seq![a as int],
            BotCallback::FeedSelectColony(a, b) => seq![a as int, b as int],
            BotCallback::FeedConfirm(a, b, c) => seq![a as int, b as int, c as int],
            BotCallback::ColonyGetCount(a) => seq![a as int],
            BotCallback::ColonyCountUpdate(a, b) => seq![a as int, b as int],
            BotCallback::ViewFeedingSchedule(a) => seq![a as int],
        }
    }
}

/// The widths of the fields that each variant carries, in order.
pub open spec fn widths(k: ActionKind) -> Seq<IntWidth> {
    match k {
        ActionKind::FeedTarantula => seq![IntWidth::Id],
        ActionKind::HealthCheck => seq![IntWidth::Id],
        ActionKind::HealthStatus => seq![IntWidth::Id, IntWidth::Id],
        ActionKind::MoltSimple => seq![IntWidth::Id],
        ActionKind::ColonyMaintenanceMenu => seq![IntWidth::Id],
        ActionKind::FeedSelectColony => seq![IntWidth::Id, IntWidth::Id],
        ActionKind::FeedConfirm => seq![IntWidth::Id, IntWidth::Id, IntWidth::I32],
        ActionKind::ColonyGetCount => seq![IntWidth::Id],
        ActionKind::ColonyCountUpdate => seq![IntWidth::Id, IntWidth::I32],
        ActionKind::ViewFeedingSchedule => seq![IntWidth::Id],
        _ => seq![],
    }
}

/// The action of variant `k` with the field values `vs`.
pub open spec fn build(k: ActionKind, vs: Seq<int>) -> BotCallback {
    match k {
        ActionKind::MainMenu => BotCallback::MainMenu,
        ActionKind::ListTarantulas => BotCallback::ListTarantulas,
        ActionKind::FeedingSchedule => BotCallback::FeedingSchedule,
        ActionKind::HealthAlerts => BotCallback::HealthAlerts,
        ActionKind::Maintenance => BotCallback::Maintenance,
        ActionKind::Colonies => BotCallback::Colonies,
        ActionKind::StatusOverview => BotCallback::StatusOverview,
        ActionKind::RecordFeeding => BotCallback::RecordFeeding,
        ActionKind::RecordHealthCheck => BotCallback::RecordHealthCheck,
        ActionKind::MoltHistory => BotCallback::MoltHistory,
        ActionKind::RecordMolt => BotCallback::RecordMolt,
        ActionKind::ColonyMaintenance => BotCallback::ColonyMaintenance,
        ActionKind::ViewRecords => BotCallback::ViewRecords,
        ActionKind::ViewFeedingRecords => BotCallback::ViewFeedingRecords,
        ActionKind::ViewHealthRecords => BotCallback::ViewHealthRecords,
        ActionKind::ViewMoltRecords => BotCallback::ViewMoltRecords,
        ActionKind::FeedTarantula => BotCallback::FeedTarantula(vs[0] as i64),
        ActionKind::HealthCheck => BotCallback::HealthCheck(vs[0] as i64),
        ActionKind::HealthStatus => BotCallback::HealthStatus(vs[0] as i64, vs[1] as i64),
        ActionKind::MoltSimple => BotCallback::MoltSimple(vs[0] as i64),
        ActionKind::ColonyMaintenanceMenu => BotCallback::ColonyMaintenanceMenu(vs[0] as i64),
        ActionKind::FeedSelectColony => BotCallback::FeedSelectColony(vs[0] as i64, vs[1] as i64),
        ActionKind::FeedConfirm => BotCallback::FeedConfirm(vs[0] as i64, vs[1] as i64, vs[2] as i32),
        ActionKind::ColonyGetCount => BotCallback::ColonyGetCount(vs[0] as i64),
        ActionKind::ColonyCountUpdate => BotCallback::ColonyCountUpdate(vs[0] as i64, vs[1] as i32),
        ActionKind::ViewFeedingSchedule => BotCallback::ViewFeedingSchedule(vs[0] as i64),
    }
}

/// The kinds in table order.
pub open spec fn kind_at_spec(i: int) -> ActionKind {
    if i == 0 {
        ActionKind::MainMenu
    }
    else if i == 1 {
        ActionKind::ListTarantulas
    }
    else if i == 2 {
        ActionKind::FeedingSchedule
    }
    else if i == 3 {
        ActionKind::HealthAlerts
    }
    else if i == 4 {
        ActionKind::Maintenance
    }
    else if i == 5 {
        ActionKind::Colonies
    }
    else if i == 6 {
        ActionKind::StatusOverview
    }
    else if i == 7 {
        ActionKind::RecordFeeding
    }
    else if i == 8 {
        ActionKind::RecordHealthCheck
    }
    else if i == 9 {
        ActionKind::MoltHistory
    }
    else if i == 10 {
        ActionKind::RecordMolt
    }
    else if i == 11 {
        ActionKind::ColonyMaintenance
    }
    else if i == 12 {
        ActionKind::ViewRecords
    }
    else if i == 13 {
        ActionKind::ViewFeedingRecords
    }
    else if i == 14 {
        ActionKind::ViewHealthRecords
    }
    else if i == 15 {
        ActionKind::ViewMoltRecords
    }
    else if i == 16 {
        ActionKind::FeedTarantula
    }
    else if i == 17 {
        ActionKind::HealthCheck
    }
    else if i == 18 {
        ActionKind::HealthStatus
    }
    else if i == 19 {
        ActionKind::MoltSimple
    }
    else if i == 20 {
        ActionKind::ColonyMaintenanceMenu
    }
    else if i == 21 {
        ActionKind::FeedSelectColony
    }
    else if i == 22 {
        ActionKind::FeedConfirm
    }
    else if i == 23 {
        ActionKind::ColonyGetCount
    }
    else if i == 24 {
        ActionKind::ColonyCountUpdate
    }
    else {
        ActionKind::ViewFeedingSchedule
    }
}

/// The position of each kind in the table.
pub open spec fn kind_index(k: ActionKind) -> int {
    match k {
        ActionKind::MainMenu => 0,
        ActionKind::ListTarantulas => 1,
        ActionKind::FeedingSchedule => 2,
        ActionKind::HealthAlerts => 3,
        ActionKind::Maintenance => 4,
        ActionKind::Colonies => 5,
        ActionKind::StatusOverview => 6,
        ActionKind::RecordFeeding => 7,
        ActionKind::RecordHealthCheck => 8,
        ActionKind::MoltHistory => 9,
        ActionKind::RecordMolt => 10,
        ActionKind::ColonyMaintenance => 11,
        ActionKind::ViewRecords => 12,
        ActionKind::ViewFeedingRecords => 13,
        ActionKind::ViewHealthRecords => 14,
        ActionKind::ViewMoltRecords => 15,
        ActionKind::FeedTarantula => 16,
        ActionKind::HealthCheck => 17,
        ActionKind::HealthStatus => 18,
        ActionKind::MoltSimple => 19,
        ActionKind::ColonyMaintenanceMenu => 20,
        ActionKind::FeedSelectColony => 21,
        ActionKind::FeedConfirm => 22,
        ActionKind::ColonyGetCount => 23,
        ActionKind::ColonyCountUpdate => 24,
        ActionKind::ViewFeedingSchedule => 25,
    }
}

pub const KIND_COUNT: usize = 26;

pub proof fn lemma_kind_index(k: ActionKind)
    ensures
        0 <= kind_index(k) < KIND_COUNT,
        kind_at_spec(kind_index(k)) == k,
{
}

/// The kind at position `i` of the table.
pub fn kind_at(i: usize) -> (r: ActionKind)
    requires
        i < KIND_COUNT,
    ensures
        r == kind_at_spec(i as int),
{
    if i == 0 {
        ActionKind::MainMenu
    }
    else if i == 1 {
        ActionKind::ListTarantulas
    }
    else if i == 2 {
        ActionKind::FeedingSchedule
    }
    else if i == 3 {
        ActionKind::HealthAlerts
    }
    else if i == 4 {
        ActionKind::Maintenance
    }
    else if i == 5 {
        ActionKind::Colonies
    }
    else if i == 6 {
        ActionKind::StatusOverview
    }
    else if i == 7 {
        ActionKind::RecordFeeding
    }
    else if i == 8 {
        ActionKind::RecordHealthCheck
    }
    else if i == 9 {
        ActionKind::MoltHistory
    }
    else if i == 10 {
        ActionKind::RecordMolt
    }
    else if i == 11 {
        ActionKind::ColonyMaintenance
    }
    else if i == 12 {
        ActionKind::ViewRecords
    }
    else if i == 13 {
        ActionKind::ViewFeedingRecords
    }
    else if i == 14 {
        ActionKind::ViewHealthRecords
    }
    else if i == 15 {
        ActionKind::ViewMoltRecords
    }
    else if i == 16 {
        ActionKind::FeedTarantula
    }
    else if i == 17 {
        ActionKind::HealthCheck
    }
    else if i == 18 {
        ActionKind::HealthStatus
    }
    else if i == 19 {
        ActionKind::MoltSimple
    }
    else if i == 20 {
        ActionKind::ColonyMaintenanceMenu
    }
    else if i == 21 {
        ActionKind::FeedSelectColony
    }
    else if i == 22 {
        ActionKind::FeedConfirm
    }
    else if i == 23 {
        ActionKind::ColonyGetCount
    }
    else if i == 24 {
        ActionKind::ColonyCountUpdate
    }
    else {
        ActionKind::ViewFeedingSchedule
    }
}

/// The wire tag of `k`.
pub fn tag(k: ActionKind) -> (r: &'static str)
    ensures
        r@ == tag_spec(k),
{
    match k {
        ActionKind::MainMenu => "main_menu",
        ActionKind::ListTarantulas => "list_tarantulas",
        ActionKind::FeedingSchedule => "feeding_schedule",
        ActionKind::HealthAlerts => "health_alerts",
        ActionKind::Maintenance => "maintenance",
        ActionKind::Colonies => "colonies",
        ActionKind::StatusOverview => "status_overview",
        ActionKind::RecordFeeding => "record_feeding",
        ActionKind::RecordHealthCheck => "record_health_check",
        ActionKind::MoltHistory => "molt_history",
        ActionKind::RecordMolt => "record_molt",
        ActionKind::ColonyMaintenance => "colony_maintenance",
        ActionKind::ViewRecords => "view_records",
        ActionKind::ViewFeedingRecords => "view_feeding_records",
        ActionKind::ViewHealthRecords => "view_health_records",
        ActionKind::ViewMoltRecords => "view_molt_records",
        ActionKind::FeedTarantula => "feed_tarantula",
        ActionKind::HealthCheck => "health_check",
        ActionKind::HealthStatus => "health_status",
        ActionKind::MoltSimple => "molt_simple",
        ActionKind::ColonyMaintenanceMenu => "colony_maintenance_menu",
        ActionKind::FeedSelectColony => "feed_select_colony",
        ActionKind::FeedConfirm => "feed_confirm",
        ActionKind::ColonyGetCount => "colony_get_count",
        ActionKind::ColonyCountUpdate => "colony_count_update",
        ActionKind::ViewFeedingSchedule => "view_feeding_schedule",
    }
}

/// The widths of the fields that `k` carries.
pub fn field_widths(k: ActionKind) -> (r: Vec<IntWidth>)
    ensures
        r@ == widths(k),
{
    match k {
        ActionKind::FeedTarantula => vec![IntWidth::Id],
        ActionKind::HealthCheck => vec![IntWidth::Id],
        ActionKind::HealthStatus => vec![IntWidth::Id, IntWidth::Id],
        ActionKind::MoltSimple => vec![IntWidth::Id],
        ActionKind::ColonyMaintenanceMenu => vec![IntWidth::Id],
        ActionKind::FeedSelectColony => vec![IntWidth::Id, IntWidth::Id],
        ActionKind::FeedConfirm => vec![IntWidth::Id, IntWidth::Id, IntWidth::I32],
        ActionKind::ColonyGetCount => vec![IntWidth::Id],
        ActionKind::ColonyCountUpdate => vec![IntWidth::Id, IntWidth::I32],
        ActionKind::ViewFeedingSchedule => vec![IntWidth::Id],
        _ => vec![],
    }
}

impl BotCallback {
    /// The variant of this action.
    pub fn kind(&self) -> (r: ActionKind)
        ensures
            r == self.kind_of(),
    {
        match self {
            BotCallback::MainMenu => ActionKind::MainMenu,
            BotCallback::ListTarantulas => ActionKind::ListTarantulas,
            BotCallback::FeedingSchedule => ActionKind::FeedingSchedule,
            BotCallback::HealthAlerts => ActionKind::HealthAlerts,
            BotCallback::Maintenance => ActionKind::Maintenance,
            BotCallback::Colonies => ActionKind::Colonies,
            BotCallback::StatusOverview => ActionKind::StatusOverview,
            BotCallback::RecordFeeding => ActionKind::RecordFeeding,
            BotCallback::RecordHealthCheck => ActionKind::RecordHealthCheck,
            BotCallback::MoltHistory => ActionKind::MoltHistory,
            BotCallback::RecordMolt => ActionKind::RecordMolt,
            BotCallback::ColonyMaintenance => ActionKind::ColonyMaintenance,
            BotCallback::ViewRecords => ActionKind::ViewRecords,
            BotCallback::ViewFeedingRecords => ActionKind::ViewFeedingRecords,
            BotCallback::ViewHealthRecords => ActionKind::ViewHealthRecords,
            BotCallback::ViewMoltRecords => ActionKind::ViewMoltRecords,
            BotCallback::FeedTarantula(..) => ActionKind::FeedTarantula,
            BotCallback::HealthCheck(..) => ActionKind::HealthCheck,
            BotCallback::HealthStatus(..) => ActionKind::HealthStatus,
            BotCallback::MoltSimple(..) => ActionKind::MoltSimple,
            BotCallback::ColonyMaintenanceMenu(..) => ActionKind::ColonyMaintenanceMenu,
            BotCallback::FeedSelectColony(..) => ActionKind::FeedSelectColony,
            BotCallback::FeedConfirm(..) => ActionKind::FeedConfirm,
            BotCallback::ColonyGetCount(..) => ActionKind::ColonyGetCount,
            BotCallback::ColonyCountUpdate(..) => ActionKind::ColonyCountUpdate,
            BotCallback::ViewFeedingSchedule(..) => ActionKind::ViewFeedingSchedule,
        }
    }

    /// The fields of this action, in order, widened to `i64`.
    pub fn fields(&self) -> (r: Vec<i64>)
        ensures
            r@.len() == self.fields_of().len(),
            forall|i: int| 0 <= i < r@.len() ==> r@[i] as int == #[trigger] self.fields_of()[i],
    {
        match self {
            BotCallback::MainMenu => vec![],
            BotCallback::ListTarantulas => vec![],
            BotCallback::FeedingSchedule => vec![],
            BotCallback::HealthAlerts => vec![],
            BotCallback::Maintenance => vec![],
            BotCallback::Colonies => vec![],
            BotCallback::StatusOverview => vec![],
            BotCallback::RecordFeeding => vec![],
            BotCallback::RecordHealthCheck => vec![],
            BotCallback::MoltHistory => vec![],
            BotCallback::RecordMolt => vec![],
            BotCallback::ColonyMaintenance => vec![],
            BotCallback::ViewRecords => vec![],
            BotCallback::ViewFeedingRecords => vec![],
            BotCallback::ViewHealthRecords => vec![],
            BotCallback::ViewMoltRecords => vec![],
            BotCallback::FeedTarantula(a) => vec![*a as i64],
            BotCallback::HealthCheck(a) => vec![*a as i64],
            BotCallback::HealthStatus(a, b) => vec![*a as i64, *b as i64],
            BotCallback::MoltSimple(a) => vec![*a as i64],
            BotCallback::ColonyMaintenanceMenu(a) => vec![*a as i64],
            BotCallback::FeedSelectColony(a, b) => vec![*a as i64, *b as i64],
            BotCallback::FeedConfirm(a, b, c) => vec![*a as i64, *b as i64, *c as i64],
            BotCallback::ColonyGetCount(a) => vec![*a as i64],
            BotCallback::ColonyCountUpdate(a, b) => vec![*a as i64, *b as i64],
            BotCallback::ViewFeedingSchedule(a) => vec![*a as i64],
        }
    }

    /// The action of variant `k` with the field values `vs`.
    pub fn from_fields(k: ActionKind, vs: &Vec<i64>) -> (r: BotCallback)
        requires
            vs@.len() == widths(k).len(),
            forall|i: int| 0 <= i < vs@.len() ==> fits(#[trigger] widths(k)[i], vs@[i] as int),
        ensures
            r == build(k, vs@.map_values(|v: i64| v as int)),
    {
        let ghost ws = widths(k);
        proof {
            assert forall|i: int| 0 <= i < vs@.len() implies fits(ws[i], vs@[i] as int) by {}
        }
        match k {
            ActionKind::MainMenu => BotCallback::MainMenu,
            ActionKind::ListTarantulas => BotCallback::ListTarantulas,
            ActionKind::FeedingSchedule => BotCallback::FeedingSchedule,
            ActionKind::HealthAlerts => BotCallback::HealthAlerts,
            ActionKind::Maintenance => BotCallback::Maintenance,
            ActionKind::Colonies => BotCallback::Colonies,
            ActionKind::StatusOverview => BotCallback::StatusOverview,
            ActionKind::RecordFeeding => BotCallback::RecordFeeding,
            ActionKind::RecordHealthCheck => BotCallback::RecordHealthCheck,
            ActionKind::MoltHistory => BotCallback::MoltHistory,
            ActionKind::RecordMolt => BotCallback::RecordMolt,
            ActionKind::ColonyMaintenance => BotCallback::ColonyMaintenance,
            ActionKind::ViewRecords => BotCallback::ViewRecords,
            ActionKind::ViewFeedingRecords => BotCallback::ViewFeedingRecords,
            ActionKind::ViewHealthRecords => BotCallback::ViewHealthRecords,
            ActionKind::ViewMoltRecords => BotCallback::ViewMoltRecords,
            ActionKind::FeedTarantula => BotCallback::FeedTarantula(vs[0]),
            ActionKind::HealthCheck => BotCallback::HealthCheck(vs[0]),
            ActionKind::HealthStatus => BotCallback::HealthStatus(vs[0], vs[1]),
            ActionKind::MoltSimple => BotCallback::MoltSimple(vs[0]),
            ActionKind::ColonyMaintenanceMenu => BotCallback::ColonyMaintenanceMenu(vs[0]),
            ActionKind::FeedSelectColony => BotCallback::FeedSelectColony(vs[0], vs[1]),
            ActionKind::FeedConfirm => BotCallback::FeedConfirm(vs[0], vs[1], vs[2] as i32),
            ActionKind::ColonyGetCount => BotCallback::ColonyGetCount(vs[0]),
            ActionKind::ColonyCountUpdate => BotCallback::ColonyCountUpdate(vs[0], vs[1] as i32),
            ActionKind::ViewFeedingSchedule => BotCallback::ViewFeedingSchedule(vs[0]),
        }
    }
}

impl BotCallback {
    /// Every field fits its width: ids are not negative.
    pub open spec fn wf(self) -> bool {
        forall|i: int| 0 <= i < self.fields_of().len() ==> fits(
            #[trigger] widths(self.kind_of())[i],
            self.fields_of()[i],
        )
    }

    /// Whether every field fits its width.
    pub fn is_valid(&self) -> (r: bool)
        ensures
            r == self.wf(),
    {
        let fs = self.fields();
        let ws = field_widths(self.kind());
        proof { lemma_fields_len(*self); }
        let mut i: usize = 0;
        while i < fs.len()
            invariant
                fs@.len() == self.fields_of().len(),
                ws@ == widths(self.kind_of()),
                ws@.len() == fs@.len(),
                forall|j: int| 0 <= j < fs@.len() ==> fs@[j] as int == #[trigger] self.fields_of()[j],
                i <= fs@.len(),
                forall|j: int| 0 <= j < i ==> fits(#[trigger] widths(self.kind_of())[j], self.fields_of()[j]),
            decreases fs.len() - i,
        {
            if !fits_width(ws[i], fs[i]) {
                assert(!fits(widths(self.kind_of())[i as int], self.fields_of()[i as int]));
                return false;
            }
            i = i + 1;
        }
        true
    }
}

fn fits_width(w: IntWidth, v: i64) -> (r: bool)
    ensures
        r == fits(w, v as int),
{
    match w {
        IntWidth::I64 => true,
        IntWidth::I32 => -2147483648 <= v && v <= 2147483647,
        IntWidth::Id => v >= 0,
    }
}

proof fn lemma_fields_len(a: BotCallback)
    ensures
        a.fields_of().len() == widths(a.kind_of()).len(),
{
}

/// Field values rendered in base 10 and joined by `_`.
pub open spec fn joined(vs: Seq<int>) -> Seq<char>
    decreases vs.len(),
{
    if vs.len() <= 1 {
        if vs.len() == 0 { Seq::empty() } else { render_int(vs[0]) }
    } else {
        joined(vs.drop_last()) + seq!['_'] + render_int(vs.last())
    }
}

/// The tag of `k` alone when `vs` is empty; otherwise the tag, `_`, and
/// the values joined by `_`.
pub open spec fn token_with(k: ActionKind, vs: Seq<int>) -> Seq<char> {
    if vs.len() == 0 {
        tag_spec(k)
    } else {
        tag_spec(k) + seq!['_'] + joined(vs)
    }
}

/// The token of an action.
pub open spec fn token_of(a: BotCallback) -> Seq<char> {
    token_with(a.kind_of(), a.fields_of())
}

/// The pieces of `s` between underscores; one more than there are
/// underscores, each possibly empty.
pub open spec fn segments(s: Seq<char>) -> Seq<Seq<char>>
    decreases s.len(),
{
    if s.len() == 0 {
        seq![Seq::empty()]
    } else {
        let prev = segments(s.drop_last());
        if s.last() == '_' {
            prev.push(Seq::empty())
        } else {
            prev.update(prev.len() - 1, prev.last().push(s.last()))
        }
    }
}

/// `t` is the tag of `k`, or starts with that tag and an underscore.
pub open spec fn matches_tag(k: ActionKind, t: Seq<char>) -> bool {
    let g = tag_spec(k);
    t == g || (t.len() > g.len() && t.subrange(0, g.len() as int) == g && t[g.len() as int] == '_')
}

/// `k` matches `t`, and no kind that matches `t` has a longer tag.
pub open spec fn selects(k: ActionKind, t: Seq<char>) -> bool {
    &&& matches_tag(k, t)
    &&& forall|k2: ActionKind| #[trigger] matches_tag(k2, t) ==> tag_spec(k2).len() <= tag_spec(
        k,
    ).len()
}

/// The field texts of `t` read as a token of kind `k`.
pub open spec fn field_segments(k: ActionKind, t: Seq<char>) -> Seq<Seq<char>> {
    if t == tag_spec(k) {
        Seq::empty()
    } else {
        segments(t.skip(tag_spec(k).len() as int + 1))
    }
}

/// Reads each text with its width; on failure, the position of the first
/// text that does not read.
pub open spec fn parse_fields(ws: Seq<IntWidth>, texts: Seq<Seq<char>>) -> Result<Seq<int>, nat>
    decreases texts.len(),
{
    if texts.len() == 0 || ws.len() == 0 {
        Ok(Seq::empty())
    } else {
        match parse_field(ws[0], texts[0]) {
            None => Err(0),
            Some(v) => match parse_fields(ws.drop_first(), texts.drop_first()) {
                Ok(vs) => Ok(seq![v] + vs),
                Err(p) => Err(p + 1),
            },
        }
    }
}

/// Why a token does not decode.
pub enum DecodeFault {
    TooLong { length: nat },
    UnknownAction,
    ArityMismatch { expected: nat, actual: nat },
    FieldParse { position: nat },
}

/// What `t` decodes to when read as a token of kind `k`.
pub open spec fn decode_as(k: ActionKind, t: Seq<char>) -> Result<BotCallback, DecodeFault> {
    let texts = field_segments(k, t);
    if texts.len() != widths(k).len() {
        Err(DecodeFault::ArityMismatch { expected: widths(k).len(), actual: texts.len() })
    } else {
        match parse_fields(widths(k), texts) {
            Ok(vs) => Ok(build(k, vs)),
            Err(p) => Err(DecodeFault::FieldParse { position: p }),
        }
    }
}

/// The most characters a token may have: a button's payload holds 64
/// bytes, and a token is ASCII.
pub const MAX_TOKEN_LEN: usize = 64;

/// What a token decodes to: refused when longer than a payload; otherwise
/// read as the kind with the longest matching tag; unknown when no tag
/// matches.
pub open spec fn decode_spec(t: Seq<char>) -> Result<BotCallback, DecodeFault> {
    if t.len() > MAX_TOKEN_LEN {
        Err(DecodeFault::TooLong { length: t.len() })
    } else if exists|k: ActionKind| selects(k, t) {
        decode_as(choose|k: ActionKind| selects(k, t), t)
    } else {
        Err(DecodeFault::UnknownAction)
    }
}

/// Why a token was refused.
#[derive(Clone, PartialEq, Eq, Debug)]
pub enum DecodeError {
    /// The token has more characters than a payload holds.
    TooLong { length: usize },
    /// No tag matches; the token as received.
    UnknownAction(String),
    /// The tag matches, but the number of fields differs from the
    /// variant's.
    ArityMismatch { expected: usize, actual: usize },
    /// The field at this position (counted from zero) is not an integer
    /// of its width.
    FieldParse { position: usize },
}

impl DecodeError {
    pub open spec fn fault(&self) -> DecodeFault {
        match self {
            DecodeError::TooLong { length } => DecodeFault::TooLong { length: *length as nat },
            DecodeError::UnknownAction(_) => DecodeFault::UnknownAction,
            DecodeError::ArityMismatch { expected, actual } => DecodeFault::ArityMismatch {
                expected: *expected as nat,
                actual: *actual as nat,
            },
            DecodeError::FieldParse { position } => DecodeFault::FieldParse {
                position: *position as nat,
            },
        }
    }
}

proof fn lemma_segments_nonempty(s: Seq<char>)
    ensures
        segments(s).len() >= 1,
    decreases s.len(),
{
    if s.len() > 0 {
        lemma_segments_nonempty(s.drop_last());
    }
}

/// Whether `cs` matches the tag of `k`.
fn tag_matches(cs: &Vec<char>, k: ActionKind) -> (r: bool)
    ensures
        r == matches_tag(k, cs@),
{
    let t = tag(k);
    let n = t.unicode_len();
    if cs.len() < n {
        return false;
    }
    let mut j: usize = 0;
    while j < n
        invariant
            t@ == tag_spec(k),
            n == t@.len(),
            n <= cs@.len(),
            j <= n,
            cs@.subrange(0, j as int) == t@.subrange(0, j as int),
        decreases n - j,
    {
        if cs[j] != t.get_char(j) {
            assert(cs@.subrange(0, n as int)[j as int] != t@[j as int]);
            assert(cs@[j as int] != t@[j as int]);
            assert(cs@ != t@);
            return false;
        }
        assert(cs@.subrange(0, j + 1) =~= cs@.subrange(0, j as int).push(cs@[j as int]));
        assert(t@.subrange(0, j + 1) =~= t@.subrange(0, j as int).push(t@[j as int]));
        j = j + 1;
    }
    assert(t@.subrange(0, n as int) =~= t@);
    if cs.len() == n {
        assert(cs@ =~= cs@.subrange(0, n as int));
        true
    } else {
        cs[n] == '_'
    }
}

impl BotCallback {
    /// The token of this action, which fits a button's 64-byte payload.
    pub fn encode(&self) -> (r: String)
        requires
            self.wf(),
        ensures
            r@ == token_of(*self),
            r@.len() <= MAX_TOKEN_LEN,
    {
        proof { lemma_token_fits_payload(*self); }
        let mut s = String::from_str(tag(self.kind()));
        let fs = self.fields();
        let ghost vs = self.fields_of();
        let mut i: usize = 0;
        while i < fs.len()
            invariant
                fs@.len() == vs.len(),
                forall|j: int| 0 <= j < fs@.len() ==> fs@[j] as int == #[trigger] vs[j],
                i <= fs@.len(),
                i == 0 ==> s@ == tag_spec(self.kind_of()),
                i > 0 ==> s@ == tag_spec(self.kind_of()) + seq!['_'] + joined(vs.subrange(0, i as int)),
            decreases fs.len() - i,
        {
            s.append("_");
            proof { reveal_strlit("_"); }
            push_int(fs[i], &mut s);
            proof {
                let p = vs.subrange(0, i + 1);
                assert(p.drop_last() =~= vs.subrange(0, i as int));
                if i == 0 {
                    assert(joined(p) == render_int(vs[0]));
                }
            }
            i = i + 1;
            assert(s@ =~= tag_spec(self.kind_of()) + seq!['_'] + joined(vs.subrange(0, i as int)));
        }
        assert(vs.subrange(0, i as int) =~= vs);
        s
    }
}

proof fn lemma_parse_fields_ok(ws: Seq<IntWidth>, texts: Seq<Seq<char>>, vs: Seq<int>)
    requires
        ws.len() == texts.len(),
        vs.len() == texts.len(),
        forall|i: int| 0 <= i < texts.len() ==> parse_field(ws[i], texts[i]) == Some(#[trigger] vs[i]),
    ensures
        parse_fields(ws, texts) == Ok::<Seq<int>, nat>(vs),
    decreases texts.len(),
{
    if texts.len() > 0 {
        assert(parse_field(ws[0], texts[0]) == Some(vs[0]));
        lemma_parse_fields_ok(ws.drop_first(), texts.drop_first(), vs.drop_first());
        assert(seq![vs[0]] + vs.drop_first() =~= vs);
    } else {
        assert(vs =~= Seq::<int>::empty());
    }
}

proof fn lemma_parse_fields_err(ws: Seq<IntWidth>, texts: Seq<Seq<char>>, p: nat)
    requires
        ws.len() == texts.len(),
        p < texts.len(),
        forall|i: int| 0 <= i < p ==> (#[trigger] parse_field(ws[i], texts[i])) is Some,
        parse_field(ws[p as int], texts[p as int]) is None,
    ensures
        parse_fields(ws, texts) == Err::<Seq<int>, nat>(p),
    decreases texts.len(),
{
    if p > 0 {
        assert(parse_field(ws[0], texts[0]) is Some);
        let ws2 = ws.drop_first();
        let t2 = texts.drop_first();
        assert forall|i: int| 0 <= i < (p - 1) as nat implies (#[trigger] parse_field(ws2[i], t2[i])) is Some by {
            assert(parse_field(ws[i + 1], texts[i + 1]) is Some);
        }
        lemma_parse_fields_err(ws2, t2, (p - 1) as nat);
    }
}

proof fn lemma_selects_unique(k1: ActionKind, k2: ActionKind, t: Seq<char>)
    requires
        selects(k1, t),
        selects(k2, t),
    ensures
        k1 == k2,
{
    let g1 = tag_spec(k1);
    let g2 = tag_spec(k2);
    assert(g1.len() == g2.len());
    assert(g1 =~= t.subrange(0, g1.len() as int));
    assert(g2 =~= t.subrange(0, g2.len() as int));
    lemma_tags_distinct(k1, k2);
}

/// The texts that the spans `sp` pick out of `cs`.
pub open spec fn span_texts(cs: Seq<char>, sp: Seq<(usize, usize)>) -> Seq<Seq<char>> {
    sp.map_values(|p: (usize, usize)| cs.subrange(p.0 as int, p.1 as int))
}

/// The spans of the underscore-separated pieces of `cs[start..]`.
fn split_spans(cs: &Vec<char>, start: usize) -> (r: Vec<(usize, usize)>)
    requires
        start <= cs@.len(),
    ensures
        span_texts(cs@, r@) == segments(cs@.subrange(start as int, cs@.len() as int)),
        forall|j: int| 0 <= j < r@.len() ==> (#[trigger] r@[j]).0 <= r@[j].1 <= cs@.len(),
{
    let mut spans: Vec<(usize, usize)> = Vec::new();
    let mut cur = start;
    let mut i = start;
    assert(cs@.subrange(start as int, start as int) =~= Seq::<char>::empty());
    assert(span_texts(cs@, spans@).push(cs@.subrange(cur as int, i as int)) =~= seq![
        Seq::<char>::empty(),
    ]);
    while i < cs.len()
        invariant
            start <= cur <= i <= cs@.len(),
            segments(cs@.subrange(start as int, i as int)) == span_texts(cs@, spans@).push(
                cs@.subrange(cur as int, i as int),
            ),
            forall|j: int| 0 <= j < spans@.len() ==> (#[trigger] spans@[j]).0 <= spans@[j].1 <= cs@.len(),
        decreases cs.len() - i,
    {
        let ghost before = cs@.subrange(start as int, i as int);
        let ghost after = cs@.subrange(start as int, i + 1);
        assert(after.drop_last() =~= before);
        assert(after.last() == cs@[i as int]);
        if cs[i] == '_' {
            spans.push((cur, i));
            cur = i + 1;
            assert(cs@.subrange(cur as int, i + 1) =~= Seq::<char>::empty());
            assert(span_texts(cs@, spans@) =~= span_texts(cs@, spans@.drop_last()).push(
                cs@.subrange(spans@.last().0 as int, spans@.last().1 as int),
            ));
        } else {
            assert(cs@.subrange(cur as int, i + 1) =~= cs@.subrange(cur as int, i as int).push(
                cs@[i as int],
            ));
        }
        i = i + 1;
        assert(segments(cs@.subrange(start as int, i as int)) =~= span_texts(cs@, spans@).push(
            cs@.subrange(cur as int, i as int),
        ));
    }
    let ghost prev = spans@;
    spans.push((cur, i));
    assert(span_texts(cs@, spans@) =~= span_texts(cs@, prev).push(
        cs@.subrange(cur as int, i as int),
    ));
    spans
}

impl BotCallback {
    /// Reads a token of at most 64 characters: the kind with the longest
    /// matching tag, then exactly that kind's number of fields, each an
    /// integer of its width (ids not negative).
    pub fn decode(s: &str) -> (r: Result<BotCallback, DecodeError>)
        ensures
            match decode_spec(s@) {
                Ok(a) => r == Ok::<BotCallback, DecodeError>(a),
                Err(f) => r is Err && r->Err_0.fault() == f,
            },
            r matches Err(DecodeError::UnknownAction(raw)) ==> raw@ == s@,
    {
        let cs = chars_of(s);
        if cs.len() > MAX_TOKEN_LEN {
            return Err(DecodeError::TooLong { length: cs.len() });
        }
        let mut best: Option<ActionKind> = None;
        let mut best_len: usize = 0;
        let mut i: usize = 0;
        while i < KIND_COUNT
            invariant
                cs@ == s@,
                i <= KIND_COUNT,
                best is None ==> forall|j: int| 0 <= j < i ==> !matches_tag(#[trigger] kind_at_spec(j), cs@),
                best is Some ==> {
                    &&& matches_tag(best->0, cs@)
                    &&& best_len == tag_spec(best->0).len()
                    &&& forall|j: int| 0 <= j < i && matches_tag(#[trigger] kind_at_spec(j), cs@)
                        ==> tag_spec(kind_at_spec(j)).len() <= best_len
                },
            decreases KIND_COUNT - i,
        {
            let k = kind_at(i);
            if tag_matches(&cs, k) {
                let n = tag(k).unicode_len();
                if best.is_none() || n > best_len {
                    best = Some(k);
                    best_len = n;
                }
            }
            i = i + 1;
        }
        let k = match best {
            None => {
                proof {
                    assert forall|k2: ActionKind| !selects(k2, s@) by {
                        lemma_kind_index(k2);
                        assert(!matches_tag(kind_at_spec(kind_index(k2)), cs@));
                    }
                }
                return Err(DecodeError::UnknownAction(String::from_str(s)));
            },
            Some(k) => k,
        };
        proof {
            assert forall|k2: ActionKind| #[trigger] matches_tag(k2, s@) implies tag_spec(k2).len()
                <= tag_spec(k).len() by {
                lemma_kind_index(k2);
                assert(matches_tag(kind_at_spec(kind_index(k2)), cs@));
            }
            assert(selects(k, s@));
            assert forall|k2: ActionKind| selects(k2, s@) implies k2 == k by {
                lemma_selects_unique(k, k2, s@);
            }
            assert((choose|k2: ActionKind| selects(k2, s@)) == k);
        }
        let ws = field_widths(k);
        if cs.len() == best_len {
            proof {
                lemma_tags_well_formed(k);
            }
            assert(cs@ =~= tag_spec(k));
            if ws.len() == 0 {
                let vals: Vec<i64> = Vec::new();
                assert(vals@.map_values(|v: i64| v as int) =~= Seq::<int>::empty());
                return Ok(BotCallback::from_fields(k, &vals));
            } else {
                return Err(DecodeError::ArityMismatch { expected: ws.len(), actual: 0 });
            }
        }
        let spans = split_spans(&cs, best_len + 1);
        let ghost texts = span_texts(cs@, spans@);
        assert(cs@.subrange(best_len + 1, cs@.len() as int) =~= cs@.skip(best_len + 1));
        assert(cs@ != tag_spec(k));
        assert(texts == field_segments(k, s@));
        if spans.len() != ws.len() {
            return Err(DecodeError::ArityMismatch { expected: ws.len(), actual: spans.len() });
        }
        let mut vals: Vec<i64> = Vec::new();
        let mut j: usize = 0;
        while j < spans.len()
            invariant
                ws@ == widths(k),
                spans@.len() == ws@.len(),
                texts == span_texts(cs@, spans@),
                texts == field_segments(k, s@),
                s@.len() <= MAX_TOKEN_LEN,
                selects(k, s@),
                (choose|k2: ActionKind| selects(k2, s@)) == k,
                forall|q: int| 0 <= q < spans@.len() ==> (#[trigger] spans@[q]).0 <= spans@[q].1 <= cs@.len(),
                j <= spans@.len(),
                vals@.len() == j,
                forall|q: int| 0 <= q < j ==> parse_field(ws@[q], texts[q]) == Some(#[trigger] vals@[q] as int),
            decreases spans.len() - j,
        {
            let (a, b) = spans[j];
            assert(texts[j as int] == cs@.subrange(a as int, b as int));
            match parse_segment(&cs, a, b, ws[j]) {
                None => {
                    proof {
                        assert forall|q: int| 0 <= q < j implies (#[trigger] parse_field(ws@[q], texts[q])) is Some by {
                            assert(parse_field(ws@[q], texts[q]) == Some(vals@[q] as int));
                        }
                        lemma_parse_fields_err(ws@, texts, j as nat);
                    }
                    return Err(DecodeError::FieldParse { position: j });
                },
                Some(v) => {
                    vals.push(v);
                },
            }
            j = j + 1;
        }
        let ghost vs = vals@.map_values(|v: i64| v as int);
        proof {
            assert forall|q: int| 0 <= q < texts.len() implies parse_field(ws@[q], texts[q]) == Some(#[trigger] vs[q]) by {
                assert(parse_field(ws@[q], texts[q]) == Some(vals@[q] as int));
            }
            lemma_parse_fields_ok(ws@, texts, vs);
            assert forall|q: int| 0 <= q < vals@.len() implies fits(#[trigger] widths(k)[q], vals@[q] as int) by {
                assert(parse_field(ws@[q], texts[q]) == Some(vals@[q] as int));
            }
        }
        Ok(BotCallback::from_fields(k, &vals))
    }
}

pub open spec fn no_underscore(s: Seq<char>) -> bool {
    forall|i: int| 0 <= i < s.len() ==> #[trigger] s[i] != '_'
}

proof fn lemma_segments_extend(a: Seq<char>, b: Seq<char>)
    requires
        no_underscore(b),
    ensures
        segments(a + b) == segments(a).update(
            segments(a).len() - 1,
            segments(a).last() + b,
        ),
    decreases b.len(),
{
    lemma_segments_nonempty(a);
    if b.len() == 0 {
        assert(a + b =~= a);
        assert(segments(a).last() + b =~= segments(a).last());
        assert(segments(a).update(segments(a).len() - 1, segments(a).last()) =~= segments(a));
    } else {
        let b0 = b.drop_last();
        assert forall|i: int| 0 <= i < b0.len() implies #[trigger] b0[i] != '_' by {
            assert(b0[i] == b[i]);
        }
        lemma_segments_extend(a, b0);
        assert((a + b).drop_last() =~= a + b0);
        assert((a + b).last() == b.last());
        assert(b.last() != '_');
        assert(segments(a).last() + b =~= (segments(a).last() + b0).push(b.last()));
        assert(segments(a + b) =~= segments(a).update(
            segments(a).len() - 1,
            segments(a).last() + b,
        ));
    }
}

proof fn lemma_segments_after_separator(a: Seq<char>, b: Seq<char>)
    requires
        no_underscore(b),
    ensures
        segments(a + seq!['_'] + b) == segments(a).push(b),
{
    let a1 = a + seq!['_'];
    assert(a1.drop_last() =~= a);
    lemma_segments_extend(a1, b);
    assert(segments(a1) == segments(a).push(Seq::empty()));
    assert(Seq::<char>::empty() + b =~= b);
    assert(segments(a1).update(segments(a1).len() - 1, segments(a1).last() + b) =~= segments(
        a,
    ).push(b));
}

proof fn lemma_render_plain(v: int)
    ensures
        no_underscore(render_int(v)),
        render_int(v).len() >= 1,
        is_digit(render_int(v)[0]) || render_int(v)[0] == '-',
{
    lemma_parse_render(v);
    assert forall|i: int| 0 <= i < render_int(v).len() implies #[trigger] render_int(v)[i] != '_' by {
        let c = render_int(v)[i];
        assert(is_digit(c) || c == '-');
    }
    let c0 = render_int(v)[0];
    assert(is_digit(c0) || c0 == '-');
}

proof fn lemma_segments_joined(vs: Seq<int>)
    requires
        vs.len() >= 1,
    ensures
        segments(joined(vs)) == vs.map_values(|v: int| render_int(v)),
        joined(vs).len() >= 1,
        is_digit(joined(vs)[0]) || joined(vs)[0] == '-',
    decreases vs.len(),
{
    if vs.len() == 1 {
        lemma_render_plain(vs[0]);
        lemma_segments_extend(Seq::empty(), render_int(vs[0]));
        assert(Seq::<char>::empty() + render_int(vs[0]) =~= render_int(vs[0]));
        assert(segments(Seq::<char>::empty()) == seq![Seq::<char>::empty()]);
        assert(segments(joined(vs)) =~= vs.map_values(|v: int| render_int(v)));
    } else {
        let init = vs.drop_last();
        lemma_segments_joined(init);
        lemma_render_plain(vs.last());
        lemma_segments_after_separator(joined(init), render_int(vs.last()));
        assert(vs.map_values(|v: int| render_int(v)) =~= init.map_values(|v: int| render_int(v)).push(
            render_int(vs.last()),
        ));
        assert(joined(vs)[0] == joined(init)[0]);
    }
}

proof fn lemma_fields_fit(a: BotCallback)
    requires
        a.wf(),
    ensures
        a.fields_of().len() == widths(a.kind_of()).len(),
        forall|i: int| 0 <= i < a.fields_of().len() ==> fits(#[trigger] widths(a.kind_of())[i], a.fields_of()[i]),
        build(a.kind_of(), a.fields_of()) == a,
{
}

proof fn lemma_token_selects(k: ActionKind, fs: Seq<int>)
    ensures
        selects(k, token_with(k, fs)),
{
    let t = token_with(k, fs);
    let g = tag_spec(k);
    if fs.len() > 0 {
        lemma_segments_joined(fs);
        assert(t.subrange(0, g.len() as int) =~= g);
        assert(t[g.len() as int] == '_');
    }
    assert(matches_tag(k, t));
    assert forall|k2: ActionKind| #[trigger] matches_tag(k2, t) implies tag_spec(k2).len() <= g.len() by {
        let g2 = tag_spec(k2);
        if g2.len() > g.len() {
            lemma_tags_well_formed(k2);
            assert(fs.len() > 0);
            assert(g2 =~= t.subrange(0, g2.len() as int));
            assert(g2[g.len() as int] == '_');
            if g2.len() == g.len() + 1 {
                assert(g2.last() == '_');
            } else {
                assert(g2[g.len() as int + 1] == joined(fs)[0]);
                assert(tag_char(g2[g.len() as int + 1]));
            }
        }
    }
}

/// The token of a kind and values selects that kind and no other.
proof fn lemma_token_kind(k: ActionKind, fs: Seq<int>)
    ensures
        exists|k2: ActionKind| selects(k2, token_with(k, fs)),
        (choose|k2: ActionKind| selects(k2, token_with(k, fs))) == k,
        fs.len() > 0 ==> field_segments(k, token_with(k, fs)) == fs.map_values(
            |v: int| render_int(v),
        ),
        fs.len() == 0 ==> field_segments(k, token_with(k, fs)) == Seq::<Seq<char>>::empty(),
{
    let t = token_with(k, fs);
    lemma_token_selects(k, fs);
    assert forall|k2: ActionKind| selects(k2, t) implies k2 == k by {
        lemma_selects_unique(k, k2, t);
    }
    if fs.len() > 0 {
        lemma_tags_well_formed(k);
        lemma_segments_joined(fs);
        assert(t != tag_spec(k));
        assert(t.skip(tag_spec(k).len() as int + 1) =~= joined(fs));
    }
}

/// A tag followed by a number of integer fields other than its variant's
/// is refused as an arity mismatch that gives both counts; for a variant
/// without fields too.
pub proof fn lemma_arity_rejection(k: ActionKind, vs: Seq<int>)
    requires
        vs.len() != widths(k).len(),
        token_with(k, vs).len() <= MAX_TOKEN_LEN,
    ensures
        decode_spec(token_with(k, vs)) == Err::<BotCallback, DecodeFault>(
            DecodeFault::ArityMismatch { expected: widths(k).len(), actual: vs.len() },
        ),
{
    lemma_token_kind(k, vs);
}

/// No token of an action is read as another variant, however their tags
/// overlap (`colony_maintenance` and `colony_maintenance_menu_5`): the
/// variant that reads it is the action's own.
pub proof fn lemma_tag_collision(a: BotCallback, k2: ActionKind)
    requires
        k2 != a.kind_of(),
    ensures
        !selects(k2, token_of(a)),
{
    lemma_token_kind(a.kind_of(), a.fields_of());
    if selects(k2, token_of(a)) {
        lemma_selects_unique(a.kind_of(), k2, token_of(a));
    }
}

/// Every valid action reads back from its token unchanged.
pub proof fn lemma_round_trip(a: BotCallback)
    requires
        a.wf(),
    ensures
        decode_spec(token_of(a)) == Ok::<BotCallback, DecodeFault>(a),
{
    let k = a.kind_of();
    let t = token_of(a);
    let fs = a.fields_of();
    lemma_token_kind(k, fs);
    lemma_fields_fit(a);
    lemma_token_fits_payload(a);
    let texts = field_segments(k, t);
    if fs.len() == 0 {
        assert(fs =~= Seq::<int>::empty());
    } else {
        assert forall|i: int| 0 <= i < texts.len() implies parse_field(widths(k)[i], texts[i]) == Some(#[trigger] fs[i]) by {
            lemma_parse_render(fs[i]);
        }
        lemma_parse_fields_ok(widths(k), texts, fs);
    }
}

/// The longest tag has 23 characters.
pub proof fn lemma_tag_len(k: ActionKind)
    ensures
        tag_spec(k).len() <= 23,
        widths(k).len() == 3 ==> tag_spec(k).len() == 12,
        widths(k).len() == 2 ==> tag_spec(k).len() <= 19,
{
    lemma_tags_well_formed(k);
    reveal_strlit("feed_confirm");
    reveal_strlit("health_status");
    reveal_strlit("feed_select_colony");
    reveal_strlit("colony_count_update");
    reveal_strlit("colony_maintenance_menu");
}

/// The token of a valid action fits in a button's payload. Tokens are
/// ASCII, so characters are bytes.
pub proof fn lemma_token_fits_payload(a: BotCallback)
    requires
        a.wf(),
    ensures
        token_of(a).len() <= MAX_TOKEN_LEN,
{
    let k = a.kind_of();
    let fs = a.fields_of();
    let ws = widths(k);
    let t = token_of(a);
    lemma_tag_len(k);
    lemma_fields_fit(a);
    if fs.len() == 1 {
        lemma_render_len(fs[0]);
        assert(t.len() == tag_spec(k).len() + 1 + render_int(fs[0]).len());
    } else if fs.len() == 2 {
        lemma_render_len(fs[0]);
        lemma_render_len(fs[1]);
        assert(fs.drop_last() =~= seq![fs[0]]);
        assert(joined(fs.drop_last()) == render_int(fs[0]));
        assert(joined(fs).len() == render_int(fs[0]).len() + 1 + render_int(fs[1]).len());
        assert(fits(ws[0], fs[0]) && fits(ws[1], fs[1]));
    } else if fs.len() == 3 {
        lemma_render_len(fs[0]);
        lemma_render_len(fs[1]);
        lemma_render_len(fs[2]);
        assert(fs.drop_last() =~= seq![fs[0], fs[1]]);
        assert(fs.drop_last().drop_last() =~= seq![fs[0]]);
        assert(joined(fs.drop_last().drop_last()) == render_int(fs[0]));
        assert(fs.drop_last().last() == fs[1]);
        assert(joined(fs.drop_last()).len() == render_int(fs[0]).len() + 1 + render_int(fs[1]).len());
        assert(joined(fs).len() == joined(fs.drop_last()).len() + 1 + render_int(fs[2]).len());
        assert(fits(ws[0], fs[0]) && fits(ws[1], fs[1]) && fits(ws[2], fs[2]));
    }
}

} // verus!
