//! Merging one document over another.

use crate::json::{self, Entries, Json, JsonView};
use vstd::prelude::*;

verus! {

/// Objects nested deeper than this are merged without looking inside their members.
pub const DEEP_MERGE_MAX_DEPTH: usize = 32;

/// `overlay` merged over `base`, `depth` levels below the top: two objects are merged member by
/// member, anything else in `overlay` replaces what `base` has.
pub open spec fn merged(base: JsonView, overlay: JsonView, depth: nat) -> JsonView
    decreases overlay, 0nat,
{
    match (base, overlay) {
        (JsonView::Object(below), JsonView::Object(above)) => JsonView::Object(
            merged_entries(below, above, depth),
        ),
        _ => overlay,
    }
}

/// The entries `above` merged over `below`, one after another.
pub open spec fn merged_entries(below: Entries, above: Entries, depth: nat) -> Entries
    decreases above, 0nat,
{
    if above.len() == 0 {
        below
    } else {
        let so_far = merged_entries(below, above.drop_last(), depth);
        let key = above.last().0;
        let value = above.last().1;
        json::put(so_far, key, merged_member(json::lookup(so_far, key), value, depth))
    }
}

/// What a member holds after the merge: `above` merged over what was there, as long as the depth
/// allows.
pub open spec fn merged_member(below: Option<JsonView>, above: JsonView, depth: nat) -> JsonView
    decreases above, 1nat,
{
    match below {
        Some(existing) => if depth < DEEP_MERGE_MAX_DEPTH {
            merged(existing, above, depth + 1)
        } else {
            above
        },
        None => above,
    }
}

/// Merges `overlay` over `base`.
pub fn deep_merge(base: &Json, overlay: &Json, depth: usize) -> (r: Json)
    ensures
        r@ == merged(base@, overlay@, depth as nat),
    decreases overlay,
{
    match (base, overlay) {
        (Json::Object(below), Json::Object(above)) => {
            let mut entries = below.clone();
            let n: usize = above.len();
            let mut i: usize = 0;
            while i < n
                invariant
                    i <= n,
                    n == above@.len(),
                    *overlay == Json::Object(*above),
                    entries@ == merged_entries(below@, above@.take(i as int), depth as nat),
                decreases n - i,
            {
                proof {
                    reveal_with_fuel(merged_entries, 2);
                }
                let ghost so_far = above@.take(i as int);
                let ghost next = above@.take(i + 1);
                assert(next.drop_last() =~= so_far);
                assert(next.last() == above@[i as int]);
                let key = above.key(i);
                let value = above.value(i);
                assert(decreases_to!(*overlay => overlay->Object_0));
                let merged_value = match entries.get(key.as_str()) {
                    Some(existing) => {
                        if depth < DEEP_MERGE_MAX_DEPTH {
                            deep_merge(existing, value, depth + 1)
                        } else {
                            value.clone()
                        }
                    },
                    None => value.clone(),
                };
                entries.insert(key.as_str(), merged_value);
                i = i + 1;
            }
            assert(above@.take(n as int) =~= above@);
            Json::Object(entries)
        },
        _ => overlay.clone(),
    }
}

/// What a key holds after a merge: the overlay's member merged over the base's where both have the
/// key and the depth allows, the one that there is where only one has it.
pub proof fn law_merged_lookup(below: Entries, above: Entries, depth: nat, key: Seq<char>)
    requires
        json::unique_keys(above),
    ensures
        json::lookup(merged_entries(below, above, depth), key) == (match json::lookup(above, key) {
            Some(value) => Some(merged_member(json::lookup(below, key), value, depth)),
            None => json::lookup(below, key),
        }),
    decreases above.len(),
{
    broadcast use json::group_lookup;

    if above.len() == 0 {
        assert(above =~= json::no_entries());
    } else {
        let rest = above.drop_last();
        let last = above.last();
        law_merged_lookup(below, rest, depth, key);
        assert(!json::has_key(rest, last.0)) by {
            if json::has_key(rest, last.0) {
                let i = json::position(rest, last.0);
                assert(json::first_at(rest, last.0, i));
                assert(above[i].0 == last.0);
            }
        }
        assert(json::put(rest, last.0, last.1) =~= above);
        law_merged_lookup(below, rest, depth, last.0);
    }
}

/// A document merged over an object without entries is the document.
pub proof fn law_merge_over_nothing(overlay: Entries, depth: nat)
    requires
        json::unique_keys(overlay),
    ensures
        merged_entries(json::no_entries(), overlay, depth) == overlay,
    decreases overlay.len(),
{
    broadcast use json::group_lookup;

    if overlay.len() == 0 {
        assert(overlay =~= json::no_entries());
    } else {
        let rest = overlay.drop_last();
        let last = overlay.last();
        law_merge_over_nothing(rest, depth);
        reveal_with_fuel(merged_entries, 2);
        assert(!json::has_key(rest, last.0)) by {
            if json::has_key(rest, last.0) {
                let i = json::position(rest, last.0);
                assert(json::first_at(rest, last.0, i));
                assert(overlay[i].0 == last.0);
            }
        }
        assert(rest.push(last) =~= overlay);
    }
}

/// Merging an object without entries over an object changes nothing; anything that is no object
/// replaces what was there.
pub proof fn law_merge_of_nothing(base: JsonView, overlay: JsonView, depth: nat)
    ensures
        base is Object ==> merged(base, JsonView::object(), depth) == base,
        !(overlay is Object && base is Object) ==> merged(base, overlay, depth) == overlay,
{
}

/// Every object that a merge can come to in a document has each key once, as objects do.
pub open spec fn keys_once(json: JsonView) -> bool
    decreases json,
{
    match json {
        JsonView::Object(entries) => json::unique_keys(entries) && forall|i: int|
            0 <= i < entries.len() ==> keys_once((#[trigger] entries[i]).1),
        _ => true,
    }
}

/// Putting what a key holds already changes nothing.
proof fn lemma_put_again(entries: Entries, key: Seq<char>)
    requires
        json::has_key(entries, key),
    ensures
        json::put(entries, key, json::lookup(entries, key).unwrap()) == entries,
{
    let p = json::position(entries, key);
    assert(json::first_at(entries, key, p));
    assert(json::put(entries, key, entries[p].1) =~= entries);
}

/// What the key of an entry holds is the entry's value.
proof fn lemma_entry_is_held(entries: Entries, i: int)
    requires
        json::unique_keys(entries),
        0 <= i < entries.len(),
    ensures
        json::has_key(entries, entries[i].0),
        json::lookup(entries, entries[i].0) == Some(entries[i].1),
{
    assert(json::first_at(entries, entries[i].0, i));
    json::lemma_first_at(entries, entries[i].0, i);
}

proof fn lemma_own_entries(entries: Entries, n: int, depth: nat)
    requires
        keys_once(JsonView::Object(entries)),
        0 <= n <= entries.len(),
    ensures
        merged_entries(entries, entries.take(n), depth) == entries,
    decreases entries, n,
{
    let above = entries.take(n);
    reveal_with_fuel(merged_entries, 2);
    if n > 0 {
        lemma_own_entries(entries, n - 1, depth);
        assert(above.drop_last() =~= entries.take(n - 1));
        let entry = entries[n - 1];
        assert(above.last() == entry);
        assert(keys_once(entry.1));
        law_merge_with_itself(entry.1, depth + 1);
        lemma_entry_is_held(entries, n - 1);
        lemma_put_again(entries, entry.0);
    }
}

/// A document merged over itself stays as it is.
pub proof fn law_merge_with_itself(document: JsonView, depth: nat)
    requires
        keys_once(document),
    ensures
        merged(document, document, depth) == document,
    decreases document, 0int,
{
    if let JsonView::Object(entries) = document {
        lemma_own_entries(entries, entries.len() as int, depth);
        assert(entries.take(entries.len() as int) =~= entries);
    }
}

proof fn lemma_entries_again(below: Entries, above: Entries, n: int, depth: nat)
    requires
        keys_once(JsonView::Object(above)),
        0 <= n <= above.len(),
    ensures
        merged_entries(merged_entries(below, above, depth), above.take(n), depth)
            == merged_entries(below, above, depth),
    decreases above, n,
{
    let once = merged_entries(below, above, depth);
    let part = above.take(n);
    reveal_with_fuel(merged_entries, 2);
    if n > 0 {
        lemma_entries_again(below, above, n - 1, depth);
        assert(part.drop_last() =~= above.take(n - 1));
        let entry = above[n - 1];
        assert(part.last() == entry);
        assert(keys_once(entry.1));
        lemma_entry_is_held(above, n - 1);
        law_merged_lookup(below, above, depth, entry.0);
        law_merge_with_itself(entry.1, depth + 1);
        if let Some(existing) = json::lookup(below, entry.0) {
            law_merge_again(existing, entry.1, depth + 1);
        }
        lemma_put_again(once, entry.0);
    }
}

/// Merging the same document once more changes nothing more.
pub proof fn law_merge_again(base: JsonView, overlay: JsonView, depth: nat)
    requires
        keys_once(overlay),
    ensures
        merged(merged(base, overlay, depth), overlay, depth) == merged(base, overlay, depth),
    decreases overlay, 0int,
{
    match (base, overlay) {
        (JsonView::Object(below), JsonView::Object(above)) => {
            lemma_entries_again(below, above, above.len() as int, depth);
            assert(above.take(above.len() as int) =~= above);
        },
        _ => {
            law_merge_with_itself(overlay, depth);
        },
    }
}

/// An object merged over an object has the members of both: where both have one, the upper one
/// merged over the lower one, as deep as objects are merged, and below that the upper one. Anything
/// else replaces what was there.
pub proof fn law_merging_keeps_members(
    base: &Json,
    overlay: &Json,
    depth: usize,
    whole: Json,
    key: Seq<char>,
    lower: &Json,
    upper: &Json,
    inner: Json,
)
    requires
        call_ensures(deep_merge, (base, overlay, depth), whole),
        overlay@ matches JsonView::Object(above) ==> json::unique_keys(above),
        depth < usize::MAX,
        call_ensures(deep_merge, (lower, upper, (depth + 1) as usize), inner),
    ensures
        !(base@ is Object && overlay@ is Object) ==> whole@ == overlay@,
        base@ is Object && overlay@ is Object ==> match (base@.get(key), overlay@.get(key)) {
            (None, above) => whole@.get(key) == above,
            (below, None) => whole@.get(key) == below,
            (Some(below), Some(above)) => if depth >= 32 {
                whole@.get(key) == Some(above)
            } else {
                below == lower@ && above == upper@ ==> whole@.get(key) == Some(inner@)
            },
        },
{
    if let (JsonView::Object(below), JsonView::Object(above)) = (base@, overlay@) {
        law_merged_lookup(below, above, depth as nat, key);
    }
}

} // verus!
