//! The records and lookup values that the bot reads and writes.
use vstd::prelude::*;

verus! {

/// A tarantula's health state.
#[derive(Clone, Copy, PartialEq, Eq, Structural, Debug)]
pub enum HealthStatus {
    Healthy,
    Monitor,
    Critical,
}

impl HealthStatus {
    /// The name stored for this value.
    pub fn to_db_name(&self) -> (r: &'static str)
        ensures
            r@ == match self {
                HealthStatus::Healthy => "Healthy"@,
                HealthStatus::Monitor => "Monitor"@,
                HealthStatus::Critical => "Critical"@,
            },
    {
        match self {
            HealthStatus::Healthy => "Healthy",
            HealthStatus::Monitor => "Monitor",
            HealthStatus::Critical => "Critical",
        }
    }

    /// A sentence that explains this value.
    pub fn description(&self) -> (r: &'static str)
        ensures
            r@ == match self {
                HealthStatus::Healthy => "Normal health status with no concerns"@,
                HealthStatus::Monitor => "Requires extra attention and monitoring"@,
                HealthStatus::Critical => "Immediate attention required"@,
            },
    {
        match self {
            HealthStatus::Healthy => "Normal health status with no concerns",
            HealthStatus::Monitor => "Requires extra attention and monitoring",
            HealthStatus::Critical => "Immediate attention required",
        }
    }

    /// The status stored under `id`; an unknown id reads as healthy.
    pub fn from_id(id: i64) -> (r: HealthStatus)
        ensures
            r == (if id == 2 {
                HealthStatus::Monitor
            } else if id == 3 {
                HealthStatus::Critical
            } else {
                HealthStatus::Healthy
            }),
    {
        match id {
            1 => HealthStatus::Healthy,
            2 => HealthStatus::Monitor,
            3 => HealthStatus::Critical,
            _ => HealthStatus::Healthy,
        }
    }

    /// The id stored for this status.
    pub fn id(&self) -> (r: i64)
        ensures
            r == match self {
                HealthStatus::Healthy => 1i64,
                HealthStatus::Monitor => 2i64,
                HealthStatus::Critical => 3i64,
            },
    {
        match self {
            HealthStatus::Healthy => 1,
            HealthStatus::Monitor => 2,
            HealthStatus::Critical => 3,
        }
    }
}

/// How a feeding went.
#[derive(Clone, Copy, PartialEq, Eq, Structural, Debug)]
pub enum FeedingStatus {
    Accepted,
    Rejected,
    Partial,
    PreMolt,
    Dead,
    Overflow,
}

impl FeedingStatus {
    /// The name stored for this value.
    pub fn to_db_name(&self) -> (r: &'static str)
        ensures
            r@ == match self {
                FeedingStatus::Accepted => "Accepted"@,
                FeedingStatus::Rejected => "Rejected"@,
                FeedingStatus::Partial => "Partial"@,
                FeedingStatus::PreMolt => "Pre-molt"@,
                FeedingStatus::Dead => "Dead"@,
                FeedingStatus::Overflow => "Overflow"@,
            },
    {
        match self {
            FeedingStatus::Accepted => "Accepted",
            FeedingStatus::Rejected => "Rejected",
            FeedingStatus::Partial => "Partial",
            FeedingStatus::PreMolt => "Pre-molt",
            FeedingStatus::Dead => "Dead",
            FeedingStatus::Overflow => "Overflow",
        }
    }

    /// A sentence that explains this value.
    pub fn description(&self) -> (r: &'static str)
        ensures
            r@ == match self {
                FeedingStatus::Accepted => "Food was accepted normally"@,
                FeedingStatus::Rejected => "Food was rejected"@,
                FeedingStatus::Partial => "Only part of the food was consumed"@,
                FeedingStatus::PreMolt => "Refused food due to pre-molt state"@,
                FeedingStatus::Dead => "Prey died without being eaten"@,
                FeedingStatus::Overflow => "Too many prey items left in enclosure"@,
            },
    {
        match self {
            FeedingStatus::Accepted => "Food was accepted normally",
            FeedingStatus::Rejected => "Food was rejected",
            FeedingStatus::Partial => "Only part of the food was consumed",
            FeedingStatus::PreMolt => "Refused food due to pre-molt state",
            FeedingStatus::Dead => "Prey died without being eaten",
            FeedingStatus::Overflow => "Too many prey items left in enclosure",
        }
    }

    /// The id stored for this value.
    pub fn id(&self) -> (r: i64)
        ensures
            r == match self {
                FeedingStatus::Accepted => 1i64,
                FeedingStatus::Rejected => 2i64,
                FeedingStatus::Partial => 3i64,
                FeedingStatus::PreMolt => 4i64,
                FeedingStatus::Dead => 5i64,
                FeedingStatus::Overflow => 6i64,
            },
    {
        match self {
            FeedingStatus::Accepted => 1,
            FeedingStatus::Rejected => 2,
            FeedingStatus::Partial => 3,
            FeedingStatus::PreMolt => 4,
            FeedingStatus::Dead => 5,
            FeedingStatus::Overflow => 6,
        }
    }
}

/// Where a tarantula stands in its molt cycle.
#[derive(Clone, Copy, PartialEq, Eq, Structural, Debug)]
pub enum MoltStage {
    Normal,
    PreMolt,
    Molting,
    PostMolt,
    Failed,
}

impl MoltStage {
    /// The name stored for this value.
    pub fn to_db_name(&self) -> (r: &'static str)
        ensures
            r@ == match self {
                MoltStage::Normal => "Normal"@,
                MoltStage::PreMolt => "Pre-molt"@,
                MoltStage::Molting => "Molting"@,
                MoltStage::PostMolt => "Post-molt"@,
                MoltStage::Failed => "Failed"@,
            },
    {
        match self {
            MoltStage::Normal => "Normal",
            MoltStage::PreMolt => "Pre-molt",
            MoltStage::Molting => "Molting",
            MoltStage::PostMolt => "Post-molt",
            MoltStage::Failed => "Failed",
        }
    }

    /// A sentence that explains this value.
    pub fn description(&self) -> (r: &'static str)
        ensures
            r@ == match self {
                MoltStage::Normal => "Regular feeding/activity cycle"@,
                MoltStage::PreMolt => "Showing signs of upcoming molt"@,
                MoltStage::Molting => "Currently in molt"@,
                MoltStage::PostMolt => "Recently molted, needs time to harden"@,
                MoltStage::Failed => "Experiencing molt complications"@,
            },
    {
        match self {
            MoltStage::Normal => "Regular feeding/activity cycle",
            MoltStage::PreMolt => "Showing signs of upcoming molt",
            MoltStage::Molting => "Currently in molt",
            MoltStage::PostMolt => "Recently molted, needs time to harden",
            MoltStage::Failed => "Experiencing molt complications",
        }
    }

    /// The id stored for this value.
    pub fn id(&self) -> (r: i64)
        ensures
            r == match self {
                MoltStage::Normal => 1i64,
                MoltStage::PreMolt => 2i64,
                MoltStage::Molting => 3i64,
                MoltStage::PostMolt => 4i64,
                MoltStage::Failed => 5i64,
            },
    {
        match self {
            MoltStage::Normal => 1,
            MoltStage::PreMolt => 2,
            MoltStage::Molting => 3,
            MoltStage::PostMolt => 4,
            MoltStage::Failed => 5,
        }
    }
}

/// The size class of a cricket colony.
#[derive(Clone, Copy, PartialEq, Eq, Structural, Debug)]
pub enum CricketSize {
    Pinhead,
    Small,
    Medium,
    Large,
    Adult,
    Unknown,
}

impl CricketSize {
    pub open spec fn db_name(&self) -> Seq<char> {
        match self {
            CricketSize::Pinhead => "Pinhead"@,
            CricketSize::Small => "Small"@,
            CricketSize::Medium => "Medium"@,
            CricketSize::Large => "Large"@,
            CricketSize::Adult => "Adult"@,
            CricketSize::Unknown => "Unknown"@,
        }
    }

    /// The name stored for this value.
    pub fn to_db_name(&self) -> (r: &'static str)
        ensures
            r@ == self.db_name(),
    {
        match self {
            CricketSize::Pinhead => "Pinhead",
            CricketSize::Small => "Small",
            CricketSize::Medium => "Medium",
            CricketSize::Large => "Large",
            CricketSize::Adult => "Adult",
            CricketSize::Unknown => "Unknown",
        }
    }

    /// The id stored for this value.
    pub fn id(&self) -> (r: i64)
        ensures
            r == match self {
                CricketSize::Pinhead => 1i64,
                CricketSize::Small => 2i64,
                CricketSize::Medium => 3i64,
                CricketSize::Large => 4i64,
                CricketSize::Adult => 5i64,
                CricketSize::Unknown => 6i64,
            },
    {
        match self {
            CricketSize::Pinhead => 1,
            CricketSize::Small => 2,
            CricketSize::Medium => 3,
            CricketSize::Large => 4,
            CricketSize::Adult => 5,
            CricketSize::Unknown => 6,
        }
    }
}

/// A chat user as the platform describes them.
pub struct TelegramUser {
    pub telegram_id: u64,
    pub username: Option<String>,
    pub first_name: String,
    pub last_name: Option<String>,
}

/// What it takes to add a tarantula.
pub struct AddTarantulaParams {
    pub name: String,
    pub species_id: i64,
    pub acquisition_date: String,
    pub estimated_age_months: i64,
    pub notes: Option<String>,
    pub enclosure_number: Option<String>,
}

/// What it takes to add a cricket colony.
pub struct AddColonyParams {
    pub colony_name: String,
    pub size_type_id: i64,
    pub current_count: i32,
    pub container_number: String,
    pub notes: Option<String>,
}

/// One maintenance visit to a colony.
pub struct ColonyMaintenanceRecord {
    pub colony_name: String,
    pub maintenance_date: String,
    pub previous_count: i32,
    pub new_count: i32,
    pub food_added: bool,
    pub water_added: bool,
    pub cleaning_performed: bool,
    pub notes: Option<String>,
}

/// One feeding, as listed to the user.
pub struct FeedingRecord {
    pub tarantula_name: String,
    pub feeding_date: String,
    pub colony_name: String,
    pub number_of_crickets: i32,
    pub status: String,
    pub notes: Option<String>,
}

/// A tarantula whose health needs attention.
pub struct HealthAlert {
    pub id: i64,
    pub name: String,
    pub scientific_name: String,
    pub alert_type: String,
    pub days_in_state: i32,
}

/// An enclosure.
pub struct Enclosure {
    pub id: Option<i64>,
    pub name: String,
    pub height_cm: i32,
    pub width_cm: i32,
    pub length_cm: i32,
    pub substrate_depth_cm: i32,
    pub notes: Option<String>,
    pub user_id: i64,
}

/// How often a size class is fed, in days.
pub struct FeedingFrequency {
    pub id: i64,
    pub frequency_name: String,
    pub min_days: i32,
    pub max_days: i32,
    pub description: Option<String>,
}

/// Something an enclosure needs done.
pub struct MaintenanceTask {
    pub id: i64,
    pub name: String,
    pub enclosure_number: String,
    pub scientific_name: String,
    pub required_action: String,
    pub priority: i32,
}

/// A tarantula as listed, with whole days since its last feeding.
pub struct TarantulaListItem {
    pub id: i64,
    pub name: String,
    pub species_name: String,
    pub enclosure_number: Option<String>,
    pub days_since_feeding: Option<i32>,
    pub current_status: String,
}

/// The state of a cricket colony, with the weeks of stock left in
/// hundredths of a week.
pub struct ColonyStatus {
    pub id: i64,
    pub colony_name: String,
    pub current_count: i32,
    pub size_type: CricketSize,
    pub crickets_used_7_days: i32,
    pub weeks_remaining_hundredths: Option<i64>,
}

} // verus!
