//! The rule engine: every rule is a pure function from facts to an optional
//! hit, and an item's score is the sum of the weights of the rules that hit,
//! never below zero.
use vstd::prelude::*;

use crate::text::{decimal, decimal_of, string_of, text_is};
use crate::types::{
    level_is_monotone, level_of_score, severity, HitView, PersistenceFacts, PersistenceType, ProcessFacts, RiskLevel,
    RiskResult, RuleHit, RunLocation,
};

pub mod persistence_rules;
pub mod process_rules;

verus! {

/// The publishers whose signed software is trusted enough to lower a score.
pub open spec fn is_safe_publisher_name(p: Seq<char>) -> bool {
    ||| p == "Microsoft Corporation"@
    ||| p == "Google LLC"@
    ||| p == "Discord Inc."@
    ||| p == "Mozilla Corporation"@
}

/// The facts name a publisher from the trusted list.
pub open spec fn names_safe_publisher(publisher: Option<String>) -> bool {
    match publisher {
        Some(p) => is_safe_publisher_name(p@),
        None => false,
    }
}

/// A hit with no explanation context.
pub open spec fn plain_hit(id: Seq<char>, weight: int) -> HitView {
    (id, weight, Seq::empty())
}

/// The unsigned-binary rule: +15 for anything not digitally signed.
pub open spec fn unsigned_binary_outcome(is_signed: bool) -> Option<HitView> {
    if !is_signed {
        Some(plain_hit("unsigned_binary"@, 15))
    } else {
        None
    }
}

/// The unknown-publisher rule: +10 when no publisher is known.
pub open spec fn unknown_publisher_outcome(publisher: Option<String>) -> Option<HitView> {
    if publisher is None {
        Some(plain_hit("unknown_publisher"@, 10))
    } else {
        None
    }
}

/// The recent-file rule: +15 for a file created within the last 48 hours,
/// that is, at most one whole day old (ages count whole days), with the age
/// in days as `days_old`.
pub open spec fn recent_file_outcome(age_days: Option<i64>) -> Option<HitView> {
    match age_days {
        Some(days) => if days <= 1 {
            Some(("recent_file"@, 15, seq![("days_old"@, decimal(days as int))]))
        } else {
            None
        },
        None => None,
    }
}

/// The known-safe-publisher rule: -40 for a publisher from the trusted list.
pub open spec fn known_safe_publisher_outcome(publisher: Option<String>) -> Option<HitView> {
    if names_safe_publisher(publisher) {
        Some(plain_hit("known_safe_publisher"@, -40))
    } else {
        None
    }
}

/// The scheduled-task rule: +20 for an unsigned program started by a
/// scheduled task.
pub open spec fn scheduled_task_outcome(source: PersistenceType, is_signed: bool) -> Option<
    HitView,
> {
    if source == PersistenceType::ScheduledTask && !is_signed {
        Some(plain_hit("persistence_via_scheduled_task"@, 20))
    } else {
        None
    }
}

/// The temp-or-downloads rule: +20 for a program running from a Temp or
/// Downloads folder, with that folder's name as `location`.
pub open spec fn temp_or_downloads_outcome(location: RunLocation) -> Option<HitView> {
    match location {
        RunLocation::Temp => Some(
            ("runs_from_temp_or_downloads"@, 20, seq![("location"@, "Temp"@)]),
        ),
        RunLocation::Downloads => Some(
            ("runs_from_temp_or_downloads"@, 20, seq![("location"@, "Downloads"@)]),
        ),
        _ => None,
    }
}

/// The autostart rule: +15 for a program set to start automatically.
pub open spec fn autostart_outcome(is_autostart: bool) -> Option<HitView> {
    if is_autostart {
        Some(plain_hit("autostart_enabled"@, 15))
    } else {
        None
    }
}

/// The network rule: +25 for a program using the network with no publisher.
pub open spec fn network_no_publisher_outcome(
    has_network_activity: bool,
    publisher: Option<String>,
) -> Option<HitView> {
    if has_network_activity && publisher is None {
        Some(plain_hit("network_no_publisher"@, 25))
    } else {
        None
    }
}

/// The CPU rule: +10 for a busy program with no publisher.
pub open spec fn high_cpu_unknown_outcome(high_cpu: bool, publisher: Option<String>) -> Option<
    HitView,
> {
    if high_cpu && publisher is None {
        Some(plain_hit("high_cpu_unknown"@, 10))
    } else {
        None
    }
}

/// The hits among `outcomes`, in order.
pub open spec fn collect_hits(outcomes: Seq<Option<HitView>>) -> Seq<HitView>
    decreases outcomes.len(),
{
    if outcomes.len() == 0 {
        Seq::empty()
    } else {
        let earlier = collect_hits(outcomes.drop_last());
        match outcomes.last() {
            Some(h) => earlier.push(h),
            None => earlier,
        }
    }
}

/// The sum of the weights of `hits`.
pub open spec fn weight_sum(hits: Seq<HitView>) -> int
    decreases hits.len(),
{
    if hits.len() == 0 {
        0
    } else {
        weight_sum(hits.drop_last()) + hits.last().1
    }
}

/// The score of a set of hits: the sum of their weights, or zero when that
/// sum is negative.
pub open spec fn score_of(hits: Seq<HitView>) -> int {
    let s = weight_sum(hits);
    if s < 0 {
        0
    } else {
        s
    }
}

/// The verdict the engine gives for these hits.
pub open spec fn verdict_of(result: RiskResult, hits: Seq<HitView>) -> bool {
    &&& result.hits.deep_view() == hits
    &&& result.score as int == score_of(hits)
    &&& result.level == level_of_score(score_of(hits))
}

/// A hit with no explanation context.
pub(crate) fn hit(rule_id: &'static str, weight: i32) -> (r: Option<RuleHit>)
    ensures
        r.deep_view() == Some(plain_hit(rule_id@, weight as int)),
{
    let h = RuleHit { rule_id, weight, context: Vec::new() };
    assert(h.context.deep_view() =~= Seq::<(Seq<char>, Seq<char>)>::empty());
    Some(h)
}

/// A hit carrying values for its explanation template.
pub(crate) fn hit_with(rule_id: &'static str, weight: i32, context: Vec<(String, String)>) -> (r:
    Option<RuleHit>)
    ensures
        r.deep_view() == Some((rule_id@, weight as int, context.deep_view())),
{
    Some(RuleHit { rule_id, weight, context })
}

/// Whether the facts name a publisher from the trusted list.
pub(crate) fn is_safe_publisher(publisher: &Option<String>) -> (r: bool)
    ensures
        r == names_safe_publisher(*publisher),
{
    match publisher {
        Some(p) => {
            text_is(p.as_str(), "Microsoft Corporation") || text_is(p.as_str(), "Google LLC")
                || text_is(p.as_str(), "Discord Inc.") || text_is(p.as_str(), "Mozilla Corporation")
        },
        None => false,
    }
}

/// The explanation context of the recent-file rule: the age in days.
pub(crate) fn age_context(days: i64) -> (ctx: Vec<(String, String)>)
    ensures
        ctx.deep_view() == seq![("days_old"@, decimal(days as int))],
{
    let digits = decimal_of(days);
    let mut ctx: Vec<(String, String)> = Vec::new();
    ctx.push(("days_old".to_owned(), string_of(digits.as_slice())));
    assert(ctx.deep_view() =~= seq![("days_old"@, decimal(days as int))]);
    ctx
}

/// The explanation context of the temp-or-downloads rule: the folder's name.
pub(crate) fn location_context(folder: &str) -> (ctx: Vec<(String, String)>)
    ensures
        ctx.deep_view() == seq![("location"@, folder@)],
{
    let mut ctx: Vec<(String, String)> = Vec::new();
    ctx.push(("location".to_owned(), folder.to_owned()));
    assert(ctx.deep_view() =~= seq![("location"@, folder@)]);
    ctx
}

/// The process rules, by name. Every rule is one pure check of the facts.
#[derive(Debug, Clone, Copy, PartialEq, Eq, Structural)]
pub enum Rule {
    UnsignedBinary,
    UnknownPublisher,
    RecentFile,
    RunsFromTempOrDownloads,
    AutostartEnabled,
    NetworkNoPublisher,
    HighCpuUnknown,
    KnownSafePublisher,
}

impl Rule {
    /// What this rule says of the facts.
    pub open spec fn outcome(self, facts: ProcessFacts) -> Option<HitView> {
        match self {
            Rule::UnsignedBinary => unsigned_binary_outcome(facts.is_signed),
            Rule::UnknownPublisher => unknown_publisher_outcome(facts.publisher),
            Rule::RecentFile => recent_file_outcome(facts.file_age_days),
            Rule::RunsFromTempOrDownloads => temp_or_downloads_outcome(facts.run_location),
            Rule::AutostartEnabled => autostart_outcome(facts.is_autostart),
            Rule::NetworkNoPublisher => network_no_publisher_outcome(
                facts.has_network_activity,
                facts.publisher,
            ),
            Rule::HighCpuUnknown => high_cpu_unknown_outcome(facts.high_cpu, facts.publisher),
            Rule::KnownSafePublisher => known_safe_publisher_outcome(facts.publisher),
        }
    }

    /// Runs this rule against the facts.
    pub fn apply(&self, facts: &ProcessFacts) -> (r: Option<RuleHit>)
        ensures
            r.deep_view() == self.outcome(*facts),
    {
        match self {
            Rule::UnsignedBinary => process_rules::unsigned_binary(facts),
            Rule::UnknownPublisher => process_rules::unknown_publisher(facts),
            Rule::RecentFile => process_rules::recent_file(facts),
            Rule::RunsFromTempOrDownloads => process_rules::runs_from_temp_or_downloads(facts),
            Rule::AutostartEnabled => process_rules::autostart_enabled(facts),
            Rule::NetworkNoPublisher => process_rules::network_no_publisher(facts),
            Rule::HighCpuUnknown => process_rules::high_cpu_unknown(facts),
            Rule::KnownSafePublisher => process_rules::known_safe_publisher(facts),
        }
    }
}

/// The persistence rules, by name.
#[derive(Debug, Clone, Copy, PartialEq, Eq, Structural)]
pub enum PersistenceRule {
    UnsignedBinary,
    UnknownPublisher,
    RecentFile,
    KnownSafePublisher,
    PersistenceViaScheduledTask,
}

impl PersistenceRule {
    /// What this rule says of the facts.
    pub open spec fn outcome(self, facts: PersistenceFacts) -> Option<HitView> {
        match self {
            PersistenceRule::UnsignedBinary => unsigned_binary_outcome(facts.is_signed),
            PersistenceRule::UnknownPublisher => unknown_publisher_outcome(facts.publisher),
            PersistenceRule::RecentFile => recent_file_outcome(facts.file_age_days),
            PersistenceRule::KnownSafePublisher => known_safe_publisher_outcome(facts.publisher),
            PersistenceRule::PersistenceViaScheduledTask => scheduled_task_outcome(
                facts.source,
                facts.is_signed,
            ),
        }
    }

    /// Runs this rule against the facts.
    pub fn apply(&self, facts: &PersistenceFacts) -> (r: Option<RuleHit>)
        ensures
            r.deep_view() == self.outcome(*facts),
    {
        match self {
            PersistenceRule::UnsignedBinary => persistence_rules::unsigned_binary(facts),
            PersistenceRule::UnknownPublisher => persistence_rules::unknown_publisher(facts),
            PersistenceRule::RecentFile => persistence_rules::recent_file(facts),
            PersistenceRule::KnownSafePublisher => persistence_rules::known_safe_publisher(facts),
            PersistenceRule::PersistenceViaScheduledTask => {
                persistence_rules::persistence_via_scheduled_task(facts)
            },
        }
    }
}

/// Every process rule, in the order they run.
pub open spec fn process_rule_list() -> Seq<Rule> {
    seq![
        Rule::UnsignedBinary,
        Rule::UnknownPublisher,
        Rule::RecentFile,
        Rule::RunsFromTempOrDownloads,
        Rule::AutostartEnabled,
        Rule::NetworkNoPublisher,
        Rule::HighCpuUnknown,
        Rule::KnownSafePublisher,
    ]
}

/// Every persistence rule, in the order they run.
pub open spec fn persistence_rule_list() -> Seq<PersistenceRule> {
    seq![
        PersistenceRule::UnsignedBinary,
        PersistenceRule::UnknownPublisher,
        PersistenceRule::RecentFile,
        PersistenceRule::KnownSafePublisher,
        PersistenceRule::PersistenceViaScheduledTask,
    ]
}

/// The hits that the process rules give for these facts, in rule order.
pub open spec fn process_hits(facts: ProcessFacts) -> Seq<HitView> {
    collect_hits(process_rule_list().map_values(|r: Rule| r.outcome(facts)))
}

/// The hits that the persistence rules give for these facts, in rule order.
pub open spec fn persistence_hits(facts: PersistenceFacts) -> Seq<HitView> {
    collect_hits(persistence_rule_list().map_values(|r: PersistenceRule| r.outcome(facts)))
}

pub fn all_rules() -> (rules: Vec<Rule>)
    ensures
        rules@ == process_rule_list(),
{
    let rules = vec![
        Rule::UnsignedBinary,
        Rule::UnknownPublisher,
        Rule::RecentFile,
        Rule::RunsFromTempOrDownloads,
        Rule::AutostartEnabled,
        Rule::NetworkNoPublisher,
        Rule::HighCpuUnknown,
        Rule::KnownSafePublisher,
    ];
    assert(rules@ =~= process_rule_list());
    rules
}

pub fn all_persistence_rules() -> (rules: Vec<PersistenceRule>)
    ensures
        rules@ == persistence_rule_list(),
{
    let rules = vec![
        PersistenceRule::UnsignedBinary,
        PersistenceRule::UnknownPublisher,
        PersistenceRule::RecentFile,
        PersistenceRule::KnownSafePublisher,
        PersistenceRule::PersistenceViaScheduledTask,
    ];
    assert(rules@ =~= persistence_rule_list());
    rules
}

/// One step of collecting hits: a further outcome is added at the end.
proof fn collect_hits_step(outcomes: Seq<Option<HitView>>, i: int)
    requires
        0 <= i < outcomes.len(),
    ensures
        collect_hits(outcomes.take(i + 1)) == match outcomes[i] {
            Some(h) => collect_hits(outcomes.take(i)).push(h),
            None => collect_hits(outcomes.take(i)),
        },
{
    assert(outcomes.take(i + 1).drop_last() =~= outcomes.take(i));
}

/// One step of summing weights: a further hit is added at the end.
proof fn weight_sum_push(hits: Seq<HitView>, h: HitView)
    ensures
        weight_sum(hits.push(h)) == weight_sum(hits) + h.1,
{
    assert(hits.push(h).drop_last() =~= hits);
}

/// The deep view of a vector of hits grows by the deep view of a pushed hit.
proof fn hits_view_push(before: Seq<RuleHit>, after: Seq<RuleHit>, h: RuleHit)
    requires
        after == before.push(h),
    ensures
        Seq::new(after.len(), |i: int| after[i].deep_view()) == Seq::new(
            before.len(),
            |i: int| before[i].deep_view(),
        ).push(h.deep_view()),
{
    assert(Seq::new(after.len(), |i: int| after[i].deep_view()) =~= Seq::new(
        before.len(),
        |i: int| before[i].deep_view(),
    ).push(h.deep_view()));
}

/// The score and level of the collected hits.
fn conclude(hits: Vec<RuleHit>, sum: i32) -> (r: RiskResult)
    requires
        sum as int == weight_sum(hits.deep_view()),
    ensures
        r.hits.deep_view() == hits.deep_view(),
        r.score as int == score_of(hits.deep_view()),
        r.level == level_of_score(score_of(hits.deep_view())),
{
    let score = if sum < 0 {
        0
    } else {
        sum
    };
    RiskResult { score, level: RiskLevel::from_score(score), hits }
}

/// Runs every process rule against one process's facts and scores them.
pub fn evaluate(facts: &ProcessFacts) -> (r: RiskResult)
    ensures
        verdict_of(r, process_hits(*facts)),
{
    let rules = all_rules();
    let ghost outcomes = process_rule_list().map_values(|r: Rule| r.outcome(*facts));
    let mut hits: Vec<RuleHit> = Vec::new();
    let mut sum: i32 = 0;
    let n = rules.len();
    for i in 0..n
        invariant
            n == rules@.len(),
            rules@ == process_rule_list(),
            outcomes == process_rule_list().map_values(|r: Rule| r.outcome(*facts)),
            hits.deep_view() == collect_hits(outcomes.take(i as int)),
            sum as int == weight_sum(hits.deep_view()),
            -40 * i <= sum <= 25 * i,
    {
        let outcome = rules[i].apply(facts);
        proof {
            collect_hits_step(outcomes, i as int);
        }
        match outcome {
            Some(h) => {
                let ghost before = hits@;
                let w = h.weight;
                proof {
                    weight_sum_push(hits.deep_view(), h.deep_view());
                }
                hits.push(h);
                proof {
                    hits_view_push(before, hits@, h);
                }
                sum = sum + w;
            },
            None => {},
        }
    }
    assert(outcomes.take(n as int) =~= outcomes);
    conclude(hits, sum)
}

/// Runs every persistence rule against one entry's facts and scores them.
pub fn evaluate_persistence(facts: &PersistenceFacts) -> (r: RiskResult)
    ensures
        verdict_of(r, persistence_hits(*facts)),
{
    let rules = all_persistence_rules();
    let ghost outcomes = persistence_rule_list().map_values(
        |r: PersistenceRule| r.outcome(*facts),
    );
    let mut hits: Vec<RuleHit> = Vec::new();
    let mut sum: i32 = 0;
    let n = rules.len();
    for i in 0..n
        invariant
            n == rules@.len(),
            rules@ == persistence_rule_list(),
            outcomes == persistence_rule_list().map_values(|r: PersistenceRule| r.outcome(*facts)),
            hits.deep_view() == collect_hits(outcomes.take(i as int)),
            sum as int == weight_sum(hits.deep_view()),
            -40 * i <= sum <= 25 * i,
    {
        let outcome = rules[i].apply(facts);
        proof {
            collect_hits_step(outcomes, i as int);
        }
        match outcome {
            Some(h) => {
                let ghost before = hits@;
                let w = h.weight;
                proof {
                    weight_sum_push(hits.deep_view(), h.deep_view());
                }
                hits.push(h);
                proof {
                    hits_view_push(before, hits@, h);
                }
                sum = sum + w;
            },
            None => {},
        }
    }
    assert(outcomes.take(n as int) =~= outcomes);
    conclude(hits, sum)
}

/// The total weight of the hits among `outcomes`.
pub open spec fn outcome_total(outcomes: Seq<Option<HitView>>) -> int
    decreases outcomes.len(),
{
    if outcomes.len() == 0 {
        0
    } else {
        outcome_total(outcomes.drop_last()) + outcome_weight(outcomes.last())
    }
}

/// The weight of the collected hits is the total weight of the outcomes.
proof fn collected_weight(outcomes: Seq<Option<HitView>>)
    ensures
        weight_sum(collect_hits(outcomes)) == outcome_total(outcomes),
    decreases outcomes.len(),
{
    if outcomes.len() > 0 {
        collected_weight(outcomes.drop_last());
        match outcomes.last() {
            Some(h) => weight_sum_push(collect_hits(outcomes.drop_last()), h),
            None => {},
        }
    }
}

/// A score is never negative.
pub proof fn score_is_never_negative(hits: Seq<HitView>)
    ensures
        score_of(hits) >= 0,
{
}

/// A process from a trusted publisher is never rated above Yellow: the
/// rules that need an unknown publisher cannot hit, and the trusted
/// publisher takes 40 off what the other rules add (at most 65).
pub proof fn trusted_process_is_at_most_yellow(facts: ProcessFacts)
    requires
        names_safe_publisher(facts.publisher),
    ensures
        score_of(process_hits(facts)) <= 25,
        severity(level_of_score(score_of(process_hits(facts)))) <= severity(RiskLevel::Yellow),
{
    let o = process_rule_list().map_values(|r: Rule| r.outcome(facts));
    collected_weight(o);
    assert(o.len() == 8);
    assert(o[1] is None);
    assert(o[5] is None);
    assert(o[6] is None);
    assert(o[7] == Some(plain_hit("known_safe_publisher"@, -40)));
    reveal_with_fuel(outcome_total, 9);
}

/// A startup entry from a trusted publisher is never rated above Yellow: at
/// most 50 is added (unsigned, recent, scheduled task) and 40 taken off.
pub proof fn trusted_startup_entry_is_at_most_yellow(facts: PersistenceFacts)
    requires
        names_safe_publisher(facts.publisher),
    ensures
        score_of(persistence_hits(facts)) <= 10,
        severity(level_of_score(score_of(persistence_hits(facts)))) <= severity(RiskLevel::Yellow),
{
    let o = persistence_rule_list().map_values(|r: PersistenceRule| r.outcome(facts));
    collected_weight(o);
    assert(o.len() == 5);
    assert(o[1] is None);
    assert(o[3] == Some(plain_hit("known_safe_publisher"@, -40)));
    reveal_with_fuel(outcome_total, 6);
}

/// The weight a single outcome adds.
pub open spec fn outcome_weight(outcome: Option<HitView>) -> int {
    match outcome {
        Some(h) => h.1,
        None => 0,
    }
}

/// Outcomes that each weigh at least as much give at least the same total.
proof fn outcome_total_monotone(lower: Seq<Option<HitView>>, higher: Seq<Option<HitView>>)
    requires
        lower.len() == higher.len(),
        forall|i: int| 0 <= i < lower.len() ==> outcome_weight(lower[i]) <= outcome_weight(higher[i]),
    ensures
        outcome_total(lower) <= outcome_total(higher),
    decreases lower.len(),
{
    if lower.len() > 0 {
        let l = lower.drop_last();
        let h = higher.drop_last();
        assert forall|i: int| 0 <= i < l.len() implies outcome_weight(l[i]) <= outcome_weight(h[i]) by {
            assert(l[i] == lower[i] && h[i] == higher[i]);
        }
        outcome_total_monotone(l, h);
        assert(outcome_weight(lower.last()) <= outcome_weight(higher.last()));
    }
}

/// Losing its signature never lowers a process's score or level: it adds
/// the unsigned-binary rule and takes no hit away.
pub proof fn unsigned_process_never_scores_lower(signed: ProcessFacts, unsigned: ProcessFacts)
    requires
        signed.is_signed,
        !unsigned.is_signed,
        unsigned.publisher == signed.publisher,
        unsigned.file_age_days == signed.file_age_days,
        unsigned.run_location == signed.run_location,
        unsigned.is_autostart == signed.is_autostart,
        unsigned.has_network_activity == signed.has_network_activity,
        unsigned.high_cpu == signed.high_cpu,
    ensures
        score_of(process_hits(signed)) <= score_of(process_hits(unsigned)),
        severity(level_of_score(score_of(process_hits(signed)))) <= severity(
            level_of_score(score_of(process_hits(unsigned))),
        ),
{
    let o1 = process_rule_list().map_values(|r: Rule| r.outcome(signed));
    let o2 = process_rule_list().map_values(|r: Rule| r.outcome(unsigned));
    collected_weight(o1);
    collected_weight(o2);
    assert forall|i: int| 0 <= i < o1.len() implies outcome_weight(o1[i]) <= outcome_weight(o2[i]) by {
        assert(o1[i] == process_rule_list()[i].outcome(signed));
        assert(o2[i] == process_rule_list()[i].outcome(unsigned));
    }
    outcome_total_monotone(o1, o2);
    level_is_monotone(score_of(process_hits(signed)), score_of(process_hits(unsigned)));
}

/// Losing its signature never lowers a startup entry's score or level: it
/// adds the unsigned-binary rule (and, for a scheduled task, the
/// scheduled-task rule) and takes no hit away.
pub proof fn unsigned_startup_entry_never_scores_lower(
    signed: PersistenceFacts,
    unsigned: PersistenceFacts,
)
    requires
        signed.is_signed,
        !unsigned.is_signed,
        unsigned.publisher == signed.publisher,
        unsigned.file_age_days == signed.file_age_days,
        unsigned.source == signed.source,
    ensures
        score_of(persistence_hits(signed)) <= score_of(persistence_hits(unsigned)),
        severity(level_of_score(score_of(persistence_hits(signed)))) <= severity(
            level_of_score(score_of(persistence_hits(unsigned))),
        ),
{
    let o1 = persistence_rule_list().map_values(|r: PersistenceRule| r.outcome(signed));
    let o2 = persistence_rule_list().map_values(|r: PersistenceRule| r.outcome(unsigned));
    collected_weight(o1);
    collected_weight(o2);
    assert forall|i: int| 0 <= i < o1.len() implies outcome_weight(o1[i]) <= outcome_weight(o2[i]) by {
        assert(o1[i] == persistence_rule_list()[i].outcome(signed));
        assert(o2[i] == persistence_rule_list()[i].outcome(unsigned));
    }
    outcome_total_monotone(o1, o2);
    level_is_monotone(
        score_of(persistence_hits(signed)),
        score_of(persistence_hits(unsigned)),
    );
}

} // verus!
