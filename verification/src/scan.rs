//! The computing steps of a full scan, between the reads and writes that
//! happen outside the library: score and explain everything collected,
//! name what the "new since last time" check records, and flag what it
//! found new.
use vstd::prelude::*;

use crate::allowlist::{identifier_of, is_listed, listed, persistence_identifier};
use crate::explain::{
    explain, explain_persistence, explanation_lines, persistence_summary, process_summary,
};
use crate::rules::{
    evaluate, evaluate_persistence, persistence_hits, process_hits, score_of,
};
use crate::types::{
    level_of_score, ExplainedPersistence, ExplainedProcess, PersistenceFacts, ProcessFacts,
};

verus! {

/// `e` is what the rule and explanation engines make of the process facts `f`.
pub open spec fn explains_process(f: ProcessFacts, e: ExplainedProcess) -> bool {
    let hits = process_hits(f);
    let score = score_of(hits);
    &&& e.pid == f.pid
    &&& e.name == f.name
    &&& e.exe_path == f.exe_path
    &&& e.publisher == f.publisher
    &&& e.memory_bytes == f.memory_bytes
    &&& e.score as int == score
    &&& e.risk_level == level_of_score(score)
    &&& e.summary@ == process_summary(level_of_score(score), hits)
    &&& e.explanations.deep_view() == explanation_lines(hits)
    &&& !e.user_marked_safe
    &&& !e.is_new
}

/// `e` is what the rule and explanation engines make of the startup facts `f`.
pub open spec fn explains_persistence(f: PersistenceFacts, e: ExplainedPersistence) -> bool {
    let hits = persistence_hits(f);
    let score = score_of(hits);
    &&& e.name == f.name
    &&& e.command == f.command
    &&& e.source == f.source
    &&& e.publisher == f.publisher
    &&& e.score as int == score
    &&& e.risk_level == level_of_score(score)
    &&& e.summary@ == persistence_summary(level_of_score(score), hits)
    &&& e.explanations.deep_view() == explanation_lines(hits)
    &&& !e.user_marked_safe
    &&& !e.is_new
}

/// Scores and explains every collected process, in order.
pub fn assess_processes(facts: &Vec<ProcessFacts>) -> (explained: Vec<ExplainedProcess>)
    ensures
        explained@.len() == facts@.len(),
        forall|i: int|
            0 <= i < facts@.len() ==> explains_process(#[trigger] facts@[i], explained@[i]),
{
    let mut out: Vec<ExplainedProcess> = Vec::new();
    let n = facts.len();
    for i in 0..n
        invariant
            n == facts@.len(),
            out@.len() == i,
            forall|k: int| 0 <= k < i ==> explains_process(#[trigger] facts@[k], out@[k]),
    {
        let risk = evaluate(&facts[i]);
        out.push(explain(&facts[i], &risk));
    }
    out
}

/// Scores and explains every collected startup entry, in order.
pub fn assess_startup_items(facts: &Vec<PersistenceFacts>) -> (explained: Vec<
    ExplainedPersistence,
>)
    ensures
        explained@.len() == facts@.len(),
        forall|i: int|
            0 <= i < facts@.len() ==> explains_persistence(#[trigger] facts@[i], explained@[i]),
{
    let mut out: Vec<ExplainedPersistence> = Vec::new();
    let n = facts.len();
    for i in 0..n
        invariant
            n == facts@.len(),
            out@.len() == i,
            forall|k: int| 0 <= k < i ==> explains_persistence(#[trigger] facts@[k], out@[k]),
    {
        let risk = evaluate_persistence(&facts[i]);
        out.push(explain_persistence(&facts[i], &risk));
    }
    out
}

/// What the history records of a process scan: (executable path, name).
pub fn process_seen_items(explained: &Vec<ExplainedProcess>) -> (items: Vec<(String, String)>)
    ensures
        items@.len() == explained@.len(),
        forall|i: int|
            0 <= i < explained@.len() ==> (#[trigger] items@[i]).0 == explained@[i].exe_path
                && items@[i].1 == explained@[i].name,
{
    let mut items: Vec<(String, String)> = Vec::new();
    let n = explained.len();
    for i in 0..n
        invariant
            n == explained@.len(),
            items@.len() == i,
            forall|k: int|
                0 <= k < i ==> (#[trigger] items@[k]).0 == explained@[k].exe_path && items@[k].1
                    == explained@[k].name,
    {
        items.push((explained[i].exe_path.clone(), explained[i].name.clone()));
    }
    items
}

/// What the history records of a startup scan: (`source:name` identifier, name).
pub fn startup_seen_items(explained: &Vec<ExplainedPersistence>) -> (items: Vec<(String, String)>)
    ensures
        items@.len() == explained@.len(),
        forall|i: int|
            0 <= i < explained@.len() ==> (#[trigger] items@[i]).0@ == identifier_of(
                explained@[i].source,
                explained@[i].name@,
            ) && items@[i].1 == explained@[i].name,
{
    let mut items: Vec<(String, String)> = Vec::new();
    let n = explained.len();
    for i in 0..n
        invariant
            n == explained@.len(),
            items@.len() == i,
            forall|k: int|
                0 <= k < i ==> (#[trigger] items@[k]).0@ == identifier_of(
                    explained@[k].source,
                    explained@[k].name@,
                ) && items@[k].1 == explained@[k].name,
    {
        items.push((persistence_identifier(&explained[i]), explained[i].name.clone()));
    }
    items
}

/// Marks each process as new exactly when its executable path is among
/// `new_ids`; nothing else changes.
pub fn flag_new_processes(explained: Vec<ExplainedProcess>, new_ids: &Vec<String>) -> (r: Vec<
    ExplainedProcess,
>)
    ensures
        r@.len() == explained@.len(),
        forall|i: int|
            0 <= i < explained@.len() ==> #[trigger] r@[i] == (ExplainedProcess {
                is_new: listed(new_ids@, explained@[i].exe_path@),
                ..explained@[i]
            }),
{
    let mut out = explained;
    let n = out.len();
    for i in 0..n
        invariant
            n == out@.len(),
            n == explained@.len(),
            forall|k: int|
                0 <= k < i ==> #[trigger] out@[k] == (ExplainedProcess {
                    is_new: listed(new_ids@, explained@[k].exe_path@),
                    ..explained@[k]
                }),
            forall|k: int| i <= k < n ==> out@[k] == explained@[k],
    {
        let flag = is_listed(new_ids, &out[i].exe_path);
        let p = &mut out[i];
        p.is_new = flag;
    }
    out
}

/// Marks each startup entry as new exactly when its `source:name`
/// identifier is among `new_ids`; nothing else changes.
pub fn flag_new_startup_items(explained: Vec<ExplainedPersistence>, new_ids: &Vec<String>) -> (r:
    Vec<ExplainedPersistence>)
    ensures
        r@.len() == explained@.len(),
        forall|i: int|
            0 <= i < explained@.len() ==> #[trigger] r@[i] == (ExplainedPersistence {
                is_new: listed(new_ids@, identifier_of(explained@[i].source, explained@[i].name@)),
                ..explained@[i]
            }),
{
    let mut out = explained;
    let n = out.len();
    for i in 0..n
        invariant
            n == out@.len(),
            n == explained@.len(),
            forall|k: int|
                0 <= k < i ==> #[trigger] out@[k] == (ExplainedPersistence {
                    is_new: listed(new_ids@, identifier_of(explained@[k].source, explained@[k].name@)),
                    ..explained@[k]
                }),
            forall|k: int| i <= k < n ==> out@[k] == explained@[k],
    {
        let id = persistence_identifier(&out[i]);
        let flag = is_listed(new_ids, &id);
        let e = &mut out[i];
        e.is_new = flag;
    }
    out
}

} // verus!
