//! The explanation engine: turns facts and a risk result into the sentences
//! a non-expert reads. Nothing here scores anything.
use vstd::prelude::*;

use crate::explain::templates::{render, rendered};
use crate::text::text_is;
use crate::types::{
    ExplainedPersistence, ExplainedProcess, HitView, PersistenceFacts, ProcessFacts, RiskLevel,
    RiskResult, RuleHit,
};

pub mod templates;

verus! {

/// Some hit of `hits` comes from the rule `id`.
pub open spec fn has_rule(hits: Seq<HitView>, id: Seq<char>) -> bool {
    exists|i: int| 0 <= i < hits.len() && hits[i].0 == id
}

/// One sentence per hit that raised the score, in order; hits that lowered
/// it (such as a known safe publisher) are not shown as warnings.
pub open spec fn explanation_lines(hits: Seq<HitView>) -> Seq<Seq<char>>
    decreases hits.len(),
{
    if hits.len() == 0 {
        Seq::empty()
    } else {
        let earlier = explanation_lines(hits.drop_last());
        if hits.last().1 > 0 {
            earlier.push(rendered(hits.last()))
        } else {
            earlier
        }
    }
}

/// The one-line verdict on a process, from its level and which rules hit.
pub open spec fn process_summary(level: RiskLevel, hits: Seq<HitView>) -> Seq<char> {
    match level {
        RiskLevel::Green => "This looks like normal, expected behavior."@,
        RiskLevel::Yellow => "A few things about this program are worth a second look, but nothing alarming yet."@,
        RiskLevel::Orange => "This program shows a combination of traits that's worth investigating."@,
        _ => if has_rule(hits, "recent_file"@) && has_rule(hits, "autostart_enabled"@) && has_rule(
            hits,
            "unsigned_binary"@,
        ) {
            "This program is unsigned, was installed very recently, and is set to run automatically \u{2014} a pattern often seen in malware."@
        } else if has_rule(hits, "network_no_publisher"@) {
            "This program is sending data to the internet with no way to verify who's receiving it."@
        } else {
            "This program shows several strong signs of suspicious behavior and deserves a closer look."@
        },
    }
}

/// The one-line verdict on a startup entry, from its level and which rules hit.
pub open spec fn persistence_summary(level: RiskLevel, hits: Seq<HitView>) -> Seq<char> {
    match level {
        RiskLevel::Green => "This looks like a normal startup entry."@,
        RiskLevel::Yellow => "A few things about this startup entry are worth a second look."@,
        RiskLevel::Orange => "This startup entry shows a combination of traits that's worth investigating."@,
        _ => if has_rule(hits, "persistence_via_scheduled_task"@) {
            "This program uses a scheduled task to run automatically and isn't signed by a known publisher \u{2014} a technique sometimes used to survive reboots without showing up in the usual startup list."@
        } else if has_rule(hits, "recent_file"@) && has_rule(hits, "unsigned_binary"@) {
            "This is an unsigned program that was added to your startup very recently."@
        } else {
            "This startup entry shows several strong signs of suspicious behavior and deserves a closer look."@
        },
    }
}

/// A copy of an optional string.
pub(crate) fn copy_text(o: &Option<String>) -> (r: Option<String>)
    ensures
        r == *o,
{
    match o {
        Some(s) => Some(s.clone()),
        None => None,
    }
}

/// Whether some hit comes from the rule `id`.
fn hit_from(hits: &Vec<RuleHit>, id: &str) -> (r: bool)
    ensures
        r == has_rule(hits.deep_view(), id@),
{
    let n = hits.len();
    for i in 0..n
        invariant
            n == hits@.len(),
            forall|k: int| 0 <= k < i ==> hits.deep_view()[k].0 != id@,
    {
        if text_is(hits[i].rule_id, id) {
            assert(hits.deep_view()[i as int].0 == id@);
            return true;
        }
    }
    false
}

/// The sentences for the hits that raised the score.
fn explanations_for(hits: &Vec<RuleHit>) -> (lines: Vec<String>)
    ensures
        lines.deep_view() == explanation_lines(hits.deep_view()),
{
    let mut lines: Vec<String> = Vec::new();
    let n = hits.len();
    let ghost hv = hits.deep_view();
    for i in 0..n
        invariant
            n == hits@.len(),
            hv == hits.deep_view(),
            lines.deep_view() == explanation_lines(hv.take(i as int)),
    {
        assert(hv.take(i + 1).drop_last() =~= hv.take(i as int));
        if hits[i].weight > 0 {
            let s = render(&hits[i]);
            let ghost before = lines.deep_view();
            lines.push(s);
            assert(lines.deep_view() =~= before.push(s@));
        }
    }
    assert(hv.take(n as int) =~= hv);
    lines
}

/// One-line synthesis of the overall verdict on a process.
fn summarize(risk: &RiskResult) -> (s: String)
    ensures
        s@ == process_summary(risk.level, risk.hits.deep_view()),
{
    match risk.level {
        RiskLevel::Green => "This looks like normal, expected behavior.".to_owned(),
        RiskLevel::Yellow => {
            "A few things about this program are worth a second look, but nothing alarming yet.".to_owned()
        },
        RiskLevel::Orange => {
            "This program shows a combination of traits that's worth investigating.".to_owned()
        },
        RiskLevel::Red | RiskLevel::Black => {
            if hit_from(&risk.hits, "recent_file") && hit_from(&risk.hits, "autostart_enabled")
                && hit_from(&risk.hits, "unsigned_binary") {
                "This program is unsigned, was installed very recently, and is set to run automatically \u{2014} a pattern often seen in malware.".to_owned()
            } else if hit_from(&risk.hits, "network_no_publisher") {
                "This program is sending data to the internet with no way to verify who's receiving it.".to_owned()
            } else {
                "This program shows several strong signs of suspicious behavior and deserves a closer look.".to_owned()
            }
        },
    }
}

/// One-line synthesis of the overall verdict on a startup entry.
fn summarize_persistence(risk: &RiskResult) -> (s: String)
    ensures
        s@ == persistence_summary(risk.level, risk.hits.deep_view()),
{
    match risk.level {
        RiskLevel::Green => "This looks like a normal startup entry.".to_owned(),
        RiskLevel::Yellow => {
            "A few things about this startup entry are worth a second look.".to_owned()
        },
        RiskLevel::Orange => {
            "This startup entry shows a combination of traits that's worth investigating.".to_owned()
        },
        RiskLevel::Red | RiskLevel::Black => {
            if hit_from(&risk.hits, "persistence_via_scheduled_task") {
                "This program uses a scheduled task to run automatically and isn't signed by a known publisher \u{2014} a technique sometimes used to survive reboots without showing up in the usual startup list.".to_owned()
            } else if hit_from(&risk.hits, "recent_file") && hit_from(&risk.hits, "unsigned_binary") {
                "This is an unsigned program that was added to your startup very recently.".to_owned()
            } else {
                "This startup entry shows several strong signs of suspicious behavior and deserves a closer look.".to_owned()
            }
        },
    }
}

/// Turns a process's facts and its risk result into what the user is shown.
pub fn explain(facts: &ProcessFacts, risk: &RiskResult) -> (e: ExplainedProcess)
    ensures
        e.pid == facts.pid,
        e.name == facts.name,
        e.exe_path == facts.exe_path,
        e.publisher == facts.publisher,
        e.memory_bytes == facts.memory_bytes,
        e.risk_level == risk.level,
        e.score == risk.score,
        e.summary@ == process_summary(risk.level, risk.hits.deep_view()),
        e.explanations.deep_view() == explanation_lines(risk.hits.deep_view()),
        !e.user_marked_safe,
        !e.is_new,
{
    let explanations = explanations_for(&risk.hits);
    let summary = summarize(risk);
    ExplainedProcess {
        pid: facts.pid,
        name: facts.name.clone(),
        exe_path: facts.exe_path.clone(),
        publisher: copy_text(&facts.publisher),
        memory_bytes: facts.memory_bytes,
        risk_level: risk.level,
        score: risk.score,
        summary,
        explanations,
        user_marked_safe: false,
        is_new: false,
    }
}

/// Turns a startup entry's facts and its risk result into what the user is
/// shown.
pub fn explain_persistence(facts: &PersistenceFacts, risk: &RiskResult) -> (e:
    ExplainedPersistence)
    ensures
        e.name == facts.name,
        e.command == facts.command,
        e.source == facts.source,
        e.publisher == facts.publisher,
        e.risk_level == risk.level,
        e.score == risk.score,
        e.summary@ == persistence_summary(risk.level, risk.hits.deep_view()),
        e.explanations.deep_view() == explanation_lines(risk.hits.deep_view()),
        !e.user_marked_safe,
        !e.is_new,
{
    let explanations = explanations_for(&risk.hits);
    let summary = summarize_persistence(risk);
    ExplainedPersistence {
        name: facts.name.clone(),
        command: facts.command.clone(),
        source: facts.source,
        publisher: copy_text(&facts.publisher),
        risk_level: risk.level,
        score: risk.score,
        summary,
        explanations,
        user_marked_safe: false,
        is_new: false,
    }
}

/// Every sentence shown comes from a hit that raised the score: a hit that
/// lowered it (a known safe publisher) is never shown as a warning.
pub proof fn explanations_come_from_warnings(hits: Seq<HitView>, j: int)
    requires
        0 <= j < explanation_lines(hits).len(),
    ensures
        exists|i: int| 0 <= i < hits.len() && hits[i].1 > 0 && explanation_lines(hits)[j] == rendered(hits[i]),
    decreases hits.len(),
{
    let earlier = explanation_lines(hits.drop_last());
    if j < earlier.len() {
        explanations_come_from_warnings(hits.drop_last(), j);
        let i = choose|i: int| 0 <= i < hits.drop_last().len() && hits.drop_last()[i].1 > 0
            && earlier[j] == rendered(hits.drop_last()[i]);
        assert(hits[i] == hits.drop_last()[i]);
    } else {
        assert(hits[hits.len() - 1] == hits.last());
    }
}

/// Hits that all lowered or kept the score give no sentences at all.
pub proof fn no_warnings_no_explanations(hits: Seq<HitView>)
    requires
        forall|i: int| 0 <= i < hits.len() ==> hits[i].1 <= 0,
    ensures
        explanation_lines(hits).len() == 0,
    decreases hits.len(),
{
    if hits.len() > 0 {
        no_warnings_no_explanations(hits.drop_last());
    }
}

/// Red and Black share their summaries: the summary depends on the level
/// only through Green, Yellow, Orange, or "Red or Black".
pub proof fn red_and_black_share_summaries(hits: Seq<HitView>)
    ensures
        process_summary(RiskLevel::Red, hits) == process_summary(RiskLevel::Black, hits),
        persistence_summary(RiskLevel::Red, hits) == persistence_summary(RiskLevel::Black, hits),
{
}

/// A Red or Black process whose hits include a recent file, autostart and a
/// missing signature is summarised as the malware pattern.
pub proof fn malware_pattern_is_named(level: RiskLevel, hits: Seq<HitView>, i: int, j: int, k: int)
    requires
        level == RiskLevel::Red || level == RiskLevel::Black,
        0 <= i < hits.len() && hits[i].0 == "recent_file"@,
        0 <= j < hits.len() && hits[j].0 == "autostart_enabled"@,
        0 <= k < hits.len() && hits[k].0 == "unsigned_binary"@,
    ensures
        process_summary(level, hits)
            == "This program is unsigned, was installed very recently, and is set to run automatically \u{2014} a pattern often seen in malware."@,
{
    assert(has_rule(hits, "recent_file"@));
    assert(has_rule(hits, "autostart_enabled"@));
    assert(has_rule(hits, "unsigned_binary"@));
}

/// A Red or Black startup entry with a scheduled-task hit is summarised as
/// the scheduled-task technique.
pub proof fn scheduled_task_technique_is_named(level: RiskLevel, hits: Seq<HitView>, i: int)
    requires
        level == RiskLevel::Red || level == RiskLevel::Black,
        0 <= i < hits.len() && hits[i].0 == "persistence_via_scheduled_task"@,
    ensures
        persistence_summary(level, hits)
            == "This program uses a scheduled task to run automatically and isn't signed by a known publisher \u{2014} a technique sometimes used to survive reboots without showing up in the usual startup list."@,
{
    assert(has_rule(hits, "persistence_via_scheduled_task"@));
}

} // verus!
