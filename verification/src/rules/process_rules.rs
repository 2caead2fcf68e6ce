//! Rules for running processes.
use vstd::prelude::*;

use crate::rules::{
    age_context, autostart_outcome, high_cpu_unknown_outcome, hit, hit_with, is_safe_publisher,
    known_safe_publisher_outcome, location_context, network_no_publisher_outcome,
    recent_file_outcome, temp_or_downloads_outcome, unknown_publisher_outcome,
    unsigned_binary_outcome,
};
use crate::types::{ProcessFacts, RuleHit, RunLocation};

verus! {

pub fn unsigned_binary(facts: &ProcessFacts) -> (r: Option<RuleHit>)
    ensures
        r.deep_view() == unsigned_binary_outcome(facts.is_signed),
{
    if !facts.is_signed {
        hit("unsigned_binary", 15)
    } else {
        None
    }
}

pub fn unknown_publisher(facts: &ProcessFacts) -> (r: Option<RuleHit>)
    ensures
        r.deep_view() == unknown_publisher_outcome(facts.publisher),
{
    if facts.publisher.is_none() {
        hit("unknown_publisher", 10)
    } else {
        None
    }
}

pub fn recent_file(facts: &ProcessFacts) -> (r: Option<RuleHit>)
    ensures
        r.deep_view() == recent_file_outcome(facts.file_age_days),
{
    match facts.file_age_days {
        Some(days) => {
            if days <= 1 {
                hit_with("recent_file", 15, age_context(days))
            } else {
                None
            }
        },
        None => None,
    }
}

pub fn runs_from_temp_or_downloads(facts: &ProcessFacts) -> (r: Option<RuleHit>)
    ensures
        r.deep_view() == temp_or_downloads_outcome(facts.run_location),
{
    match facts.run_location {
        RunLocation::Temp => hit_with("runs_from_temp_or_downloads", 20, location_context("Temp")),
        RunLocation::Downloads => hit_with(
            "runs_from_temp_or_downloads",
            20,
            location_context("Downloads"),
        ),
        _ => None,
    }
}

pub fn autostart_enabled(facts: &ProcessFacts) -> (r: Option<RuleHit>)
    ensures
        r.deep_view() == autostart_outcome(facts.is_autostart),
{
    if facts.is_autostart {
        hit("autostart_enabled", 15)
    } else {
        None
    }
}

pub fn network_no_publisher(facts: &ProcessFacts) -> (r: Option<RuleHit>)
    ensures
        r.deep_view() == network_no_publisher_outcome(facts.has_network_activity, facts.publisher),
{
    if facts.has_network_activity && facts.publisher.is_none() {
        hit("network_no_publisher", 25)
    } else {
        None
    }
}

pub fn high_cpu_unknown(facts: &ProcessFacts) -> (r: Option<RuleHit>)
    ensures
        r.deep_view() == high_cpu_unknown_outcome(facts.high_cpu, facts.publisher),
{
    if facts.high_cpu && facts.publisher.is_none() {
        hit("high_cpu_unknown", 10)
    } else {
        None
    }
}

pub fn known_safe_publisher(facts: &ProcessFacts) -> (r: Option<RuleHit>)
    ensures
        r.deep_view() == known_safe_publisher_outcome(facts.publisher),
{
    if is_safe_publisher(&facts.publisher) {
        hit("known_safe_publisher", -40)
    } else {
        None
    }
}

} // verus!
