//! The data that flows between the layers: raw facts about what runs, the
//! rule engine's verdict on them, and the explained shapes shown to the user.
use vstd::prelude::*;

verus! {

/// Where a startup/persistence entry was found.
#[derive(Debug, Clone, Copy, PartialEq, Eq, Structural)]
pub enum PersistenceType {
    RegistryRun,
    StartupFolder,
    ScheduledTask,
}

/// Raw facts about one thing set to run automatically (on login, on
/// schedule, and so on).
#[derive(Debug, Clone)]
pub struct PersistenceFacts {
    pub name: String,
    /// The full command or path as found in the registry, startup folder or task.
    pub command: String,
    pub source: PersistenceType,
    pub publisher: Option<String>,
    pub is_signed: bool,
    /// Why the file counts as unsigned, when it does.
    pub signature_detail: Option<String>,
    pub file_age_days: Option<i64>,
}

/// What the user is shown for one persistence entry.
#[derive(Debug, Clone)]
pub struct ExplainedPersistence {
    pub name: String,
    pub command: String,
    pub source: PersistenceType,
    pub publisher: Option<String>,
    pub risk_level: RiskLevel,
    pub score: i32,
    pub summary: String,
    pub explanations: Vec<String>,
    /// The user marked this entry as safe.
    pub user_marked_safe: bool,
    /// The entry was not seen in any earlier session.
    pub is_new: bool,
}

/// Where a process's executable lives on disk.
#[derive(Debug, Clone, Copy, PartialEq, Eq, Structural)]
pub enum RunLocation {
    System32,
    ProgramFiles,
    Temp,
    Downloads,
    AppData,
    Other,
}

/// Raw, uninterpreted facts about a single running process.
#[derive(Debug, Clone)]
pub struct ProcessFacts {
    pub pid: u32,
    pub name: String,
    pub exe_path: String,
    pub publisher: Option<String>,
    pub is_signed: bool,
    /// Why the file counts as unsigned, when it does.
    pub signature_detail: Option<String>,
    /// Age of the executable file in days, if it could be determined.
    pub file_age_days: Option<i64>,
    /// The process uses more than 40 percent of the processor.
    pub high_cpu: bool,
    pub memory_bytes: u64,
    pub has_network_activity: bool,
    pub is_autostart: bool,
    pub run_location: RunLocation,
}

/// What one rule found: the rule's name, how much it changes the score,
/// and the values for the blanks in its sentence (blank name, value). The
/// values are a `Vec` of pairs: vstd specifies `HashMap` only for key types
/// it models, which `String` is not.
#[derive(Debug, Clone)]
pub struct RuleHit {
    pub rule_id: &'static str,
    pub weight: i32,
    pub context: Vec<(String, String)>,
}

/// A rule hit as a mathematical value: rule id, weight, context pairs.
pub type HitView = (Seq<char>, int, Seq<(Seq<char>, Seq<char>)>);

impl DeepView for RuleHit {
    type V = HitView;

    open spec fn deep_view(&self) -> HitView {
        (self.rule_id@, self.weight as int, self.context.deep_view())
    }
}

/// Overall verdict for one item, from least to most worrying.
#[derive(Debug, Clone, Copy, PartialEq, Eq, Structural, PartialOrd, Ord, Hash)]
pub enum RiskLevel {
    Green,
    Yellow,
    Orange,
    Red,
    Black,
}

/// The position of a level in the order Green < Yellow < Orange < Red < Black.
pub open spec fn severity(level: RiskLevel) -> int {
    match level {
        RiskLevel::Green => 0,
        RiskLevel::Yellow => 1,
        RiskLevel::Orange => 2,
        RiskLevel::Red => 3,
        RiskLevel::Black => 4,
    }
}

/// The level that a score falls into: below 10 is Green, below 30 Yellow,
/// below 50 Orange, below 75 Red, and anything higher Black.
pub open spec fn level_of_score(score: int) -> RiskLevel {
    if score < 10 {
        RiskLevel::Green
    } else if score < 30 {
        RiskLevel::Yellow
    } else if score < 50 {
        RiskLevel::Orange
    } else if score < 75 {
        RiskLevel::Red
    } else {
        RiskLevel::Black
    }
}

impl RiskLevel {
    pub fn from_score(score: i32) -> (level: RiskLevel)
        ensures
            level == level_of_score(score as int),
    {
        if score < 10 {
            RiskLevel::Green
        } else if score < 30 {
            RiskLevel::Yellow
        } else if score < 50 {
            RiskLevel::Orange
        } else if score < 75 {
            RiskLevel::Red
        } else {
            RiskLevel::Black
        }
    }
}

/// A higher score never gives a less severe level.
pub proof fn level_is_monotone(a: int, b: int)
    requires
        a <= b,
    ensures
        severity(level_of_score(a)) <= severity(level_of_score(b)),
{
}

/// Output of running every rule against one item's facts.
#[derive(Debug, Clone)]
pub struct RiskResult {
    pub score: i32,
    pub level: RiskLevel,
    pub hits: Vec<RuleHit>,
}

/// What the user is shown for one running process.
#[derive(Debug, Clone)]
pub struct ExplainedProcess {
    pub pid: u32,
    pub name: String,
    pub exe_path: String,
    pub publisher: Option<String>,
    pub memory_bytes: u64,
    pub risk_level: RiskLevel,
    pub score: i32,
    pub summary: String,
    pub explanations: Vec<String>,
    /// The user marked this process as safe.
    pub user_marked_safe: bool,
    /// The process was not seen in any earlier session.
    pub is_new: bool,
}

} // verus!
