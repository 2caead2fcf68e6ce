//! The plain-English sentence behind each rule, with `{placeholder}` slots
//! filled from the hit's context.
use vstd::prelude::*;

use crate::text::{
    append_chars, chars_of, contains_text, has_prefix, occurs_at, replace_all, replaced, string_of, text_is,
};
use crate::types::{HitView, RuleHit};

verus! {

/// The sentence template of a known rule id.
pub open spec fn template_for(id: Seq<char>) -> Option<Seq<char>> {
    if id == "unsigned_binary"@ {
        Some("This program is not digitally signed, so there's no way to verify who made it."@)
    } else if id == "unknown_publisher"@ {
        Some("This program doesn't identify a publisher."@)
    } else if id == "recent_file"@ {
        Some("This program appeared on your system {days_old} day(s) ago."@)
    } else if id == "runs_from_temp_or_downloads"@ {
        Some(
            "This program is running from your {location} folder, which is unusual for legitimate software."@,
        )
    } else if id == "autostart_enabled"@ {
        Some(
            "This program is set to start automatically every time you turn on your computer."@,
        )
    } else if id == "network_no_publisher"@ {
        Some(
            "This program is connecting to the internet, but it has no verified publisher \u{2014} there's no way to know who's receiving that data."@,
        )
    } else if id == "high_cpu_unknown"@ {
        Some(
            "This program is using a lot of your computer's processing power and has no verified publisher."@,
        )
    } else if id == "persistence_via_scheduled_task"@ {
        Some(
            "This program uses a scheduled task to launch automatically, and it isn't signed by a known publisher."@,
        )
    } else {
        None
    }
}

/// The slot that a context value named `key` fills: `{key}`.
pub open spec fn placeholder(key: Seq<char>) -> Seq<char> {
    seq!['{'] + key + seq!['}']
}

/// `template` with the slot of each context entry replaced by its value,
/// entry after entry.
pub open spec fn filled(template: Seq<char>, context: Seq<(Seq<char>, Seq<char>)>) -> Seq<char>
    decreases context.len(),
{
    if context.len() == 0 {
        template
    } else {
        let entry = context.last();
        replaced(filled(template, context.drop_last()), placeholder(entry.0), entry.1)
    }
}

/// The sentence for a hit: its rule's template filled from its context, or,
/// for a rule without a template, a sentence naming the rule.
pub open spec fn rendered(hit: HitView) -> Seq<char> {
    match template_for(hit.0) {
        Some(t) => filled(t, hit.2),
        None => "Flagged by rule: "@ + hit.0,
    }
}

/// The template of `rule_id`, if it has one.
fn template(rule_id: &str) -> (t: Option<&'static str>)
    ensures
        t matches Some(s) ==> template_for(rule_id@) == Some(s@),
        t is None ==> template_for(rule_id@) is None,
{
    if text_is(rule_id, "unsigned_binary") {
        Some("This program is not digitally signed, so there's no way to verify who made it.")
    } else if text_is(rule_id, "unknown_publisher") {
        Some("This program doesn't identify a publisher.")
    } else if text_is(rule_id, "recent_file") {
        Some("This program appeared on your system {days_old} day(s) ago.")
    } else if text_is(rule_id, "runs_from_temp_or_downloads") {
        Some(
            "This program is running from your {location} folder, which is unusual for legitimate software.",
        )
    } else if text_is(rule_id, "autostart_enabled") {
        Some("This program is set to start automatically every time you turn on your computer.")
    } else if text_is(rule_id, "network_no_publisher") {
        Some(
            "This program is connecting to the internet, but it has no verified publisher \u{2014} there's no way to know who's receiving that data.",
        )
    } else if text_is(rule_id, "high_cpu_unknown") {
        Some(
            "This program is using a lot of your computer's processing power and has no verified publisher.",
        )
    } else if text_is(rule_id, "persistence_via_scheduled_task") {
        Some(
            "This program uses a scheduled task to launch automatically, and it isn't signed by a known publisher.",
        )
    } else {
        None
    }
}

/// Renders one rule hit into a plain-English sentence, substituting the
/// context values (such as `{days_old}`) that the rule provided.
pub fn render(hit: &RuleHit) -> (s: String)
    ensures
        s@ == rendered(hit.deep_view()),
{
    let t = match template(hit.rule_id) {
        Some(t) => t,
        None => {
            let mut text = chars_of("Flagged by rule: ");
            let id = chars_of(hit.rule_id);
            append_chars(&mut text, id.as_slice());
            return string_of(text.as_slice());
        },
    };
    let mut out = chars_of(t);
    let n = hit.context.len();
    let ghost ctx = hit.context.deep_view();
    for i in 0..n
        invariant
            n == hit.context@.len(),
            ctx == hit.context.deep_view(),
            template_for(hit.rule_id@) == Some(t@),
            out@ == filled(t@, ctx.take(i as int)),
    {
        let key = chars_of(hit.context[i].0.as_str());
        let mut pat: Vec<char> = Vec::new();
        pat.push('{');
        append_chars(&mut pat, key.as_slice());
        pat.push('}');
        let value = chars_of(hit.context[i].1.as_str());
        assert(pat@ =~= placeholder(ctx[i as int].0));
        assert(ctx.take(i + 1).drop_last() =~= ctx.take(i as int));
        out = replace_all(out.as_slice(), pat.as_slice(), value.as_slice());
    }
    assert(ctx.take(n as int) =~= ctx);
    string_of(out.as_slice())
}

/// A hit from a rule without a template still gives a readable sentence,
/// and that sentence names the rule.
pub proof fn unknown_rule_is_named(hit: HitView)
    requires
        template_for(hit.0) is None,
    ensures
        contains_text(rendered(hit), hit.0),
{
    let prefix = "Flagged by rule: "@;
    assert((prefix + hit.0).subrange(prefix.len() as int, (prefix.len() + hit.0.len()) as int) =~= hit.0);
    assert(occurs_at(rendered(hit), hit.0, prefix.len() as int));
}

/// Replacing every occurrence of a pattern that occurs in `s` puts the
/// replacement into the result.
proof fn replacement_appears(s: Seq<char>, pat: Seq<char>, rep: Seq<char>, i: int)
    requires
        pat.len() > 0,
        occurs_at(s, pat, i),
    ensures
        contains_text(replaced(s, pat, rep), rep),
    decreases s.len(),
{
    if has_prefix(s, pat) {
        let r = replaced(s, pat, rep);
        assert(r.subrange(0, rep.len() as int) =~= rep);
        assert(occurs_at(r, rep, 0));
    } else {
        if i == 0 {
            assert(s.take(pat.len() as int) =~= s.subrange(0, pat.len() as int));
        }
        let t = s.drop_first();
        assert(t.subrange(i - 1, i - 1 + pat.len()) =~= s.subrange(i, i + pat.len()));
        replacement_appears(t, pat, rep, i - 1);
        let k = choose|k: int| occurs_at(replaced(t, pat, rep), rep, k);
        let r = replaced(s, pat, rep);
        assert(r == seq![s[0]] + replaced(t, pat, rep));
        assert(r.subrange(k + 1, k + 1 + rep.len()) =~= replaced(t, pat, rep).subrange(k, k + rep.len()));
        assert(occurs_at(r, rep, k + 1));
    }
}

/// A hit whose context holds one value, for a rule whose template has that
/// value's `{key}` slot, is rendered as a sentence that shows the value.
pub proof fn slot_value_is_shown(hit: HitView)
    requires
        template_for(hit.0) is Some,
        hit.2.len() == 1,
        contains_text(template_for(hit.0)->0, placeholder(hit.2[0].0)),
    ensures
        contains_text(rendered(hit), hit.2[0].1),
{
    let t = template_for(hit.0)->0;
    let ctx = hit.2;
    let i = choose|i: int| occurs_at(t, placeholder(ctx[0].0), i);
    assert(ctx.drop_last() =~= Seq::<(Seq<char>, Seq<char>)>::empty());
    assert(filled(t, ctx.drop_last()) == t);
    assert(ctx.last() == ctx[0]);
    replacement_appears(t, placeholder(ctx[0].0), ctx[0].1, i);
}

/// The sentence for a process running from a Temp or Downloads folder names
/// that folder: whatever `location` value the hit carries appears in it.
pub proof fn location_is_shown(weight: int, location: Seq<char>)
    ensures
        contains_text(
            rendered(("runs_from_temp_or_downloads"@, weight, seq![("location"@, location)])),
            location,
        ),
{
    reveal_strlit("runs_from_temp_or_downloads");
    reveal_strlit("location");
    reveal_strlit(
        "This program is running from your {location} folder, which is unusual for legitimate software.",
    );
    reveal_strlit("unsigned_binary");
    reveal_strlit("unknown_publisher");
    reveal_strlit("recent_file");
    let id = "runs_from_temp_or_downloads"@;
    assert(id.len() != "unsigned_binary"@.len());
    assert(id.len() != "unknown_publisher"@.len());
    assert(id.len() != "recent_file"@.len());
    let t = "This program is running from your {location} folder, which is unusual for legitimate software."@;
    let ctx = seq![("location"@, location)];
    assert(template_for("runs_from_temp_or_downloads"@) == Some(t));
    assert(t.subrange(34, 44) =~= placeholder("location"@));
    assert(ctx.drop_last() =~= Seq::<(Seq<char>, Seq<char>)>::empty());
    assert(filled(t, ctx.drop_last()) == t);
    assert(filled(t, ctx) == replaced(t, placeholder("location"@), location));
    replacement_appears(t, placeholder("location"@), location, 34);
}

/// The sentence for a recently created file gives its age: whatever
/// `days_old` value the hit carries appears in it.
pub proof fn age_is_shown(weight: int, days_old: Seq<char>)
    ensures
        contains_text(rendered(("recent_file"@, weight, seq![("days_old"@, days_old)])), days_old),
{
    reveal_strlit("recent_file");
    reveal_strlit("days_old");
    reveal_strlit("unsigned_binary");
    reveal_strlit("unknown_publisher");
    reveal_strlit("This program appeared on your system {days_old} day(s) ago.");
    let id = "recent_file"@;
    assert(id.len() != "unsigned_binary"@.len());
    assert(id.len() != "unknown_publisher"@.len());
    let t = "This program appeared on your system {days_old} day(s) ago."@;
    let ctx = seq![("days_old"@, days_old)];
    assert(template_for("recent_file"@) == Some(t));
    assert(t.subrange(37, 47) =~= placeholder("days_old"@));
    assert(ctx.drop_last() =~= Seq::<(Seq<char>, Seq<char>)>::empty());
    assert(filled(t, ctx.drop_last()) == t);
    assert(filled(t, ctx) == replaced(t, placeholder("days_old"@), days_old));
    replacement_appears(t, placeholder("days_old"@), days_old, 37);
}

} // verus!
