//! Rules for startup/persistence entries, tunable independently of the
//! process rules.
use vstd::prelude::*;

use crate::rules::{
    age_context, hit, hit_with, is_safe_publisher, known_safe_publisher_outcome,
    recent_file_outcome, scheduled_task_outcome, unknown_publisher_outcome,
    unsigned_binary_outcome,
};
use crate::types::{PersistenceFacts, PersistenceType, RuleHit};

verus! {

pub fn unsigned_binary(facts: &PersistenceFacts) -> (r: Option<RuleHit>)
    ensures
        r.deep_view() == unsigned_binary_outcome(facts.is_signed),
{
    if !facts.is_signed {
        hit("unsigned_binary", 15)
    } else {
        None
    }
}

pub fn unknown_publisher(facts: &PersistenceFacts) -> (r: Option<RuleHit>)
    ensures
        r.deep_view() == unknown_publisher_outcome(facts.publisher),
{
    if facts.publisher.is_none() {
        hit("unknown_publisher", 10)
    } else {
        None
    }
}

pub fn recent_file(facts: &PersistenceFacts) -> (r: Option<RuleHit>)
    ensures
        r.deep_view() == recent_file_outcome(facts.file_age_days),
{
    match facts.file_age_days {
        Some(days) => {
            if days <= 1 {
                hit_with("recent_file", 15, age_context(days))
            } else {
                None
            }
        },
        None => None,
    }
}

pub fn known_safe_publisher(facts: &PersistenceFacts) -> (r: Option<RuleHit>)
    ensures
        r.deep_view() == known_safe_publisher_outcome(facts.publisher),
{
    if is_safe_publisher(&facts.publisher) {
        hit("known_safe_publisher", -40)
    } else {
        None
    }
}

/// Scheduled tasks are a less common autostart mechanism than a Run key, so
/// an unsigned scheduled task is a stronger signal on its own.
pub fn persistence_via_scheduled_task(facts: &PersistenceFacts) -> (r: Option<RuleHit>)
    ensures
        r.deep_view() == scheduled_task_outcome(facts.source, facts.is_signed),
{
    if facts.source == PersistenceType::ScheduledTask && !facts.is_signed {
        hit("persistence_via_scheduled_task", 20)
    } else {
        None
    }
}

} // verus!
