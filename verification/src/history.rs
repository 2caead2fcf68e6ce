//! "New since last time": what is flagged as new compared to everything seen
//! in earlier sessions. The record of earlier sessions lives outside the
//! library; here is the decision made against it.
use vstd::prelude::*;

use crate::allowlist::{is_listed, listed};

verus! {

/// The identifiers of `items` (identifier, display name) that `excluded`
/// does not hold, each once, in the order of their first occurrence.
pub open spec fn fresh_ids(excluded: Seq<String>, items: Seq<(String, String)>) -> Seq<Seq<char>>
    decreases items.len(),
{
    if items.len() == 0 {
        Seq::empty()
    } else {
        let earlier = fresh_ids(excluded, items.drop_last());
        let id = items.last().0@;
        if listed(excluded, id) || earlier.contains(id) {
            earlier
        } else {
            earlier.push(id)
        }
    }
}

/// What is new compared to the baseline of earlier sessions. An empty
/// baseline means there was no earlier session to compare with (the very
/// first launch), and then nothing is new.
pub open spec fn new_since(baseline: Seq<String>, items: Seq<(String, String)>) -> Seq<Seq<char>> {
    if baseline.len() == 0 {
        Seq::empty()
    } else {
        fresh_ids(baseline, items)
    }
}

/// `list` holds `id` exactly when its characters are among the list's.
pub proof fn listed_means_contained(list: Seq<String>, id: Seq<char>)
    ensures
        listed(list, id) <==> Seq::new(list.len(), |i: int| list[i]@).contains(id),
{
    let chars = Seq::new(list.len(), |i: int| list[i]@);
    if listed(list, id) {
        let i = choose|i: int| 0 <= i < list.len() && list[i]@ == id;
        assert(chars[i] == id);
    }
    if chars.contains(id) {
        let i = choose|i: int| 0 <= i < chars.len() && chars[i] == id;
        assert(list[i]@ == id);
    }
}

/// Adds `id` to `found` unless it is already there.
pub(crate) fn push_fresh(found: &mut Vec<String>, id: &String)
    ensures
        final(found).deep_view() == if old(found).deep_view().contains(id@) {
            old(found).deep_view()
        } else {
            old(found).deep_view().push(id@)
        },
{
    proof {
        listed_means_contained(found@, id@);
        assert(found.deep_view() =~= Seq::new(found@.len(), |i: int| found@[i]@));
    }
    if !is_listed(found, id) {
        let ghost before = found.deep_view();
        found.push(id.clone());
        assert(found.deep_view() =~= before.push(id@));
    }
}

/// The identifiers chosen by `fresh_ids` occur once each.
pub proof fn fresh_ids_are_distinct(excluded: Seq<String>, items: Seq<(String, String)>)
    ensures
        fresh_ids(excluded, items).no_duplicates(),
    decreases items.len(),
{
    if items.len() > 0 {
        fresh_ids_are_distinct(excluded, items.drop_last());
        let earlier = fresh_ids(excluded, items.drop_last());
        let id = items.last().0@;
        if !(listed(excluded, id) || earlier.contains(id)) {
            let grown = earlier.push(id);
            assert forall|a: int, b: int| 0 <= a < b < grown.len() implies grown[a] != grown[b] by {
                if b == earlier.len() {
                    assert(earlier[a] == grown[a]);
                } else {
                    assert(grown[a] == earlier[a] && grown[b] == earlier[b]);
                }
            }
        }
    }
}

/// The identifiers among `items` (identifier, display name pairs) that are
/// new compared to `baseline`, the identifiers seen in earlier sessions,
/// each once.
pub fn new_identifiers(baseline: &Vec<String>, items: &Vec<(String, String)>) -> (r: Vec<String>)
    ensures
        r.deep_view() == new_since(baseline@, items@),
        r.deep_view().no_duplicates(),
{
    proof {
        fresh_ids_are_distinct(baseline@, items@);
    }
    let mut found: Vec<String> = Vec::new();
    if baseline.len() == 0 {
        assert(found.deep_view() =~= Seq::<Seq<char>>::empty());
        return found;
    }
    let n = items.len();
    for i in 0..n
        invariant
            n == items@.len(),
            baseline@.len() > 0,
            found.deep_view() == fresh_ids(baseline@, items@.take(i as int)),
    {
        assert(items@.take(i + 1).drop_last() =~= items@.take(i as int));
        if !is_listed(baseline, &items[i].0) {
            push_fresh(&mut found, &items[i].0);
        }
    }
    assert(items@.take(n as int) =~= items@);
    found
}

/// An identifier is reported new exactly when there was an earlier session,
/// the identifier is among the items, and no earlier session saw it.
pub proof fn new_means_unseen(baseline: Seq<String>, items: Seq<(String, String)>, id: Seq<char>)
    ensures
        new_since(baseline, items).contains(id) <==> (baseline.len() > 0 && !listed(baseline, id)
            && exists|i: int| 0 <= i < items.len() && items[i].0@ == id),
    decreases items.len(),
{
    if items.len() > 0 && baseline.len() > 0 {
        let rest = items.drop_last();
        new_means_unseen(baseline, rest, id);
        let earlier = fresh_ids(baseline, rest);
        let last = items.last().0@;
        if !(listed(baseline, last) || earlier.contains(last)) {
            if earlier.push(last).contains(id) {
                let k = choose|k: int| 0 <= k < earlier.push(last).len() && earlier.push(last)[k] == id;
                if k < earlier.len() {
                    assert(earlier.contains(id));
                }
            }
            if earlier.contains(id) {
                let k = choose|k: int| 0 <= k < earlier.len() && earlier[k] == id;
                assert(earlier.push(last)[k] == id);
            }
            if last == id {
                assert(earlier.push(last)[earlier.len() as int] == id);
            }
        }
        if exists|i: int| 0 <= i < rest.len() && rest[i].0@ == id {
            let i = choose|i: int| 0 <= i < rest.len() && rest[i].0@ == id;
            assert(items[i].0@ == id);
        }
        if exists|i: int| 0 <= i < items.len() && items[i].0@ == id {
            let i = choose|i: int| 0 <= i < items.len() && items[i].0@ == id;
            if i < items.len() - 1 {
                assert(rest[i].0@ == id);
            }
        }
    }
}

/// On the very first launch (no earlier session recorded) nothing is new.
pub proof fn first_launch_flags_nothing(items: Seq<(String, String)>)
    ensures
        new_since(Seq::empty(), items).len() == 0,
{
}

/// What earlier sessions saw, taken once when a session starts and kept
/// unchanged for the whole session: recording this session's items does not
/// touch it, so something found new stays new for the rest of the session
/// instead of losing the mark the moment it is first recorded. The
/// identifiers are a `Vec`: vstd specifies `HashSet` only for element types
/// it models, which `String` is not.
pub struct SessionBaseline {
    seen: Vec<String>,
}

impl SessionBaseline {
    /// The identifiers seen in earlier sessions.
    pub closed spec fn seen(&self) -> Seq<String> {
        self.seen@
    }

    /// The baseline of a session, from the identifiers earlier sessions saw.
    pub fn new(seen: Vec<String>) -> (b: SessionBaseline)
        ensures
            b.seen() == seen@,
    {
        SessionBaseline { seen }
    }

    /// The identifiers among `items` that are new compared to this baseline.
    pub fn new_identifiers(&self, items: &Vec<(String, String)>) -> (r: Vec<String>)
        ensures
            r.deep_view() == new_since(self.seen(), items@),
            r.deep_view().no_duplicates(),
    {
        new_identifiers(&self.seen, items)
    }
}

} // verus!
