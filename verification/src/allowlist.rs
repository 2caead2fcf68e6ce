//! The user's allowlist ("mark as safe"), applied as a final layer on top of
//! the rule engine's output. The allowlist's storage lives outside the
//! library; here is what it does to a scan.
use vstd::prelude::*;

use crate::history::{fresh_ids, fresh_ids_are_distinct, push_fresh};
use crate::text::{append_chars, chars_of, string_of};
use crate::types::{ExplainedPersistence, ExplainedProcess, PersistenceType, RiskLevel};

verus! {

broadcast use vstd::string::group_string_axioms;

/// The name of a persistence source as it appears in identifiers (the
/// variant's own name).
pub open spec fn source_name(source: PersistenceType) -> Seq<char> {
    match source {
        PersistenceType::RegistryRun => "RegistryRun"@,
        PersistenceType::StartupFolder => "StartupFolder"@,
        PersistenceType::ScheduledTask => "ScheduledTask"@,
    }
}

/// The stable identifier of a persistence entry: `source:name`.
pub open spec fn identifier_of(source: PersistenceType, name: Seq<char>) -> Seq<char> {
    source_name(source) + seq![':'] + name
}

/// Some string of `list` holds exactly `id`. Lists of identifiers are
/// `Vec`s: vstd specifies `HashSet` only for element types it models, which
/// `String` is not.
pub open spec fn listed(list: Seq<String>, id: Seq<char>) -> bool {
    exists|i: int| 0 <= i < list.len() && list[i]@ == id
}

/// The summary shown for anything the user marked as safe.
pub open spec fn marked_safe_summary() -> Seq<char> {
    "You marked this as safe, so WTHIROMC won't flag it going forward."@
}

/// `after` is `before` as the allowlist leaves it: unchanged when not
/// listed, and otherwise forced to Green with score zero, the marked-safe
/// summary, no explanations, and the marked-safe flag set.
pub open spec fn allowlisted_process(
    before: ExplainedProcess,
    after: ExplainedProcess,
    is_listed: bool,
) -> bool {
    if is_listed {
        &&& after.pid == before.pid
        &&& after.name == before.name
        &&& after.exe_path == before.exe_path
        &&& after.publisher == before.publisher
        &&& after.memory_bytes == before.memory_bytes
        &&& after.is_new == before.is_new
        &&& after.risk_level == RiskLevel::Green
        &&& after.score == 0
        &&& after.summary@ == marked_safe_summary()
        &&& after.explanations@.len() == 0
        &&& after.user_marked_safe
    } else {
        after == before
    }
}

/// The same as `allowlisted_process`, for a persistence entry.
pub open spec fn allowlisted_persistence(
    before: ExplainedPersistence,
    after: ExplainedPersistence,
    is_listed: bool,
) -> bool {
    if is_listed {
        &&& after.name == before.name
        &&& after.command == before.command
        &&& after.source == before.source
        &&& after.publisher == before.publisher
        &&& after.is_new == before.is_new
        &&& after.risk_level == RiskLevel::Green
        &&& after.score == 0
        &&& after.summary@ == marked_safe_summary()
        &&& after.explanations@.len() == 0
        &&& after.user_marked_safe
    } else {
        after == before
    }
}

/// The identifier used for a persistence entry, `source:name`, the same key
/// the user interface computes, so that a mark-safe action from either side
/// refers to the same string.
pub fn persistence_identifier(entry: &ExplainedPersistence) -> (id: String)
    ensures
        id@ == identifier_of(entry.source, entry.name@),
{
    let source = match entry.source {
        PersistenceType::RegistryRun => "RegistryRun",
        PersistenceType::StartupFolder => "StartupFolder",
        PersistenceType::ScheduledTask => "ScheduledTask",
    };
    let mut text = chars_of(source);
    text.push(':');
    let name = chars_of(entry.name.as_str());
    append_chars(&mut text, name.as_slice());
    string_of(text.as_slice())
}

/// Forces a verdict to "safe": Green, score zero, the marked-safe summary
/// and no explanations.
pub fn override_as_safe(
    risk_level: &mut RiskLevel,
    score: &mut i32,
    summary: &mut String,
    explanations: &mut Vec<String>,
)
    ensures
        *final(risk_level) == RiskLevel::Green,
        *final(score) == 0,
        final(summary)@ == marked_safe_summary(),
        final(explanations)@.len() == 0,
{
    *risk_level = RiskLevel::Green;
    *score = 0;
    *summary = "You marked this as safe, so WTHIROMC won't flag it going forward.".to_owned();
    explanations.clear();
}

/// Whether `id` is on the list.
pub fn is_listed(list: &Vec<String>, id: &String) -> (r: bool)
    ensures
        r == listed(list@, id@),
{
    let n = list.len();
    for i in 0..n
        invariant
            n == list@.len(),
            forall|k: int| 0 <= k < i ==> list@[k]@ != id@,
    {
        if list[i] == *id {
            return true;
        }
    }
    false
}

/// The identifiers of an allowlist given as (identifier, label) pairs,
/// each once, in the order of their first occurrence.
pub fn safe_identifiers(entries: &Vec<(String, String)>) -> (ids: Vec<String>)
    ensures
        ids.deep_view() == fresh_ids(Seq::empty(), entries@),
        ids.deep_view().no_duplicates(),
{
    proof {
        fresh_ids_are_distinct(Seq::empty(), entries@);
    }
    let mut ids: Vec<String> = Vec::new();
    let n = entries.len();
    assert(ids.deep_view() =~= Seq::<Seq<char>>::empty());
    for i in 0..n
        invariant
            n == entries@.len(),
            ids.deep_view() == fresh_ids(Seq::empty(), entries@.take(i as int)),
    {
        assert(entries@.take(i + 1).drop_last() =~= entries@.take(i as int));
        assert(!listed(Seq::<String>::empty(), entries@[i as int].0@));
        push_fresh(&mut ids, &entries[i].0);
    }
    assert(entries@.take(n as int) =~= entries@);
    ids
}

/// Applies the allowlist (the identifiers in `safe`) to a process scan,
/// matching processes by executable path.
pub fn apply_to_processes(processes: Vec<ExplainedProcess>, safe: &Vec<String>) -> (r: Vec<
    ExplainedProcess,
>)
    ensures
        r@.len() == processes@.len(),
        forall|i: int|
            0 <= i < processes@.len() ==> allowlisted_process(
                #[trigger] processes@[i],
                r@[i],
                listed(safe@, processes@[i].exe_path@),
            ),
{
    let mut out = processes;
    let n = out.len();
    for i in 0..n
        invariant
            n == out@.len(),
            n == processes@.len(),
            forall|k: int|
                0 <= k < i ==> allowlisted_process(
                    #[trigger] processes@[k],
                    out@[k],
                    listed(safe@, processes@[k].exe_path@),
                ),
            forall|k: int| i <= k < n ==> out@[k] == processes@[k],
    {
        if is_listed(safe, &out[i].exe_path) {
            let p = &mut out[i];
            override_as_safe(&mut p.risk_level, &mut p.score, &mut p.summary, &mut p.explanations);
            p.user_marked_safe = true;
        }
    }
    out
}

/// Applies the allowlist (the identifiers in `safe`) to a startup scan,
/// matching entries by their `source:name` identifier.
pub fn apply_to_persistence(entries: Vec<ExplainedPersistence>, safe: &Vec<String>) -> (r: Vec<
    ExplainedPersistence,
>)
    ensures
        r@.len() == entries@.len(),
        forall|i: int|
            0 <= i < entries@.len() ==> allowlisted_persistence(
                #[trigger] entries@[i],
                r@[i],
                listed(safe@, identifier_of(entries@[i].source, entries@[i].name@)),
            ),
{
    let mut out = entries;
    let n = out.len();
    for i in 0..n
        invariant
            n == out@.len(),
            n == entries@.len(),
            forall|k: int|
                0 <= k < i ==> allowlisted_persistence(
                    #[trigger] entries@[k],
                    out@[k],
                    listed(safe@, identifier_of(entries@[k].source, entries@[k].name@)),
                ),
            forall|k: int| i <= k < n ==> out@[k] == entries@[k],
    {
        let id = persistence_identifier(&out[i]);
        if is_listed(safe, &id) {
            let e = &mut out[i];
            override_as_safe(&mut e.risk_level, &mut e.score, &mut e.summary, &mut e.explanations);
            e.user_marked_safe = true;
        }
    }
    out
}

/// Two persistence entries get the same identifier only when they come from
/// the same source and have the same name, so a mark-safe action never
/// reaches an entry it was not meant for.
pub proof fn identifier_is_unique(
    source1: PersistenceType,
    name1: Seq<char>,
    source2: PersistenceType,
    name2: Seq<char>,
)
    requires
        identifier_of(source1, name1) == identifier_of(source2, name2),
    ensures
        source1 == source2,
        name1 == name2,
{
    reveal_strlit("RegistryRun");
    reveal_strlit("StartupFolder");
    reveal_strlit("ScheduledTask");
    let id = identifier_of(source1, name1);
    let l1 = source_name(source1).len();
    let l2 = source_name(source2).len();
    if source1 != source2 {
        if l1 < l2 {
            assert(id[l1 as int] == ':');
            assert(identifier_of(source2, name2)[l1 as int] == source_name(source2)[l1 as int]);
        } else if l2 < l1 {
            assert(identifier_of(source2, name2)[l2 as int] == ':');
            assert(id[l2 as int] == source_name(source1)[l2 as int]);
        } else {
            assert(id[1] == source_name(source1)[1]);
            assert(identifier_of(source2, name2)[1] == source_name(source2)[1]);
        }
    }
    assert(name1 =~= id.skip(l1 + 1int));
    assert(name2 =~= identifier_of(source2, name2).skip(l2 + 1int));
}

/// Applying the allowlist to its own output changes nothing further: the
/// result still stands to the original scan as one application does.
pub proof fn allowlist_is_idempotent_for_processes(
    before: ExplainedProcess,
    once: ExplainedProcess,
    twice: ExplainedProcess,
    safe: Seq<String>,
)
    requires
        allowlisted_process(before, once, listed(safe, before.exe_path@)),
        allowlisted_process(once, twice, listed(safe, once.exe_path@)),
    ensures
        allowlisted_process(before, twice, listed(safe, before.exe_path@)),
{
}

/// The same for startup entries.
pub proof fn allowlist_is_idempotent_for_persistence(
    before: ExplainedPersistence,
    once: ExplainedPersistence,
    twice: ExplainedPersistence,
    safe: Seq<String>,
)
    requires
        allowlisted_persistence(
            before,
            once,
            listed(safe, identifier_of(before.source, before.name@)),
        ),
        allowlisted_persistence(once, twice, listed(safe, identifier_of(once.source, once.name@))),
    ensures
        allowlisted_persistence(
            before,
            twice,
            listed(safe, identifier_of(before.source, before.name@)),
        ),
{
}

} // verus!
