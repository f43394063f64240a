//! Cancellation of tool calls by call id.
//!
//! A call registers its id when it begins and releases it when it ends. A cancellation for an id
//! that is not registered leaves a tombstone, so that the call is cancelled when it begins later.

use crate::text;
use vstd::prelude::*;

verus! {

/// The most entries, registered calls and tombstones together, that are kept.
pub const CANCEL_TOKENS_MAX: usize = 4096;

/// What is known of one call id.
pub struct CancelEntry {
    call_id: String,
    cancelled: bool,
    in_flight: bool,
}

/// The mathematical counterpart of [`CancelEntry`].
pub struct TokenView {
    /// The call id.
    pub call_id: Seq<char>,
    /// Whether the call was cancelled.
    pub cancelled: bool,
    /// Whether a call registered the id and has not released it.
    pub in_flight: bool,
}

impl View for CancelEntry {
    type V = TokenView;

    closed spec fn view(&self) -> TokenView {
        TokenView {
            call_id: self.call_id@,
            cancelled: self.cancelled,
            in_flight: self.in_flight,
        }
    }
}

/// The ids of the calls that can be cancelled, oldest first.
pub struct CancelTokens {
    entries: Vec<CancelEntry>,
}

impl View for CancelTokens {
    type V = Seq<TokenView>;

    closed spec fn view(&self) -> Seq<TokenView> {
        tokens_of(self.entries@)
    }
}

/// What the entries of a list hold.
pub closed spec fn tokens_of(entries: Seq<CancelEntry>) -> Seq<TokenView> {
    entries.map_values(|entry: CancelEntry| entry@)
}

/// The entry at `i` is that of `call_id`.
pub open spec fn entry_at(tokens: Seq<TokenView>, call_id: Seq<char>, i: int) -> bool {
    0 <= i < tokens.len() && tokens[i].call_id == call_id
}

/// Whether there is an entry for `call_id`.
pub open spec fn known(tokens: Seq<TokenView>, call_id: Seq<char>) -> bool {
    exists|i: int| entry_at(tokens, call_id, i)
}

/// Where the entry for `call_id` stands.
pub open spec fn place(tokens: Seq<TokenView>, call_id: Seq<char>) -> int {
    choose|i: int| entry_at(tokens, call_id, i)
}

/// Whether `call_id` was cancelled.
pub open spec fn is_cancelled(tokens: Seq<TokenView>, call_id: Seq<char>) -> bool {
    known(tokens, call_id) && tokens[place(tokens, call_id)].cancelled
}

/// Whether the call `call_id` is active: it registered its id and has not released it.
pub open spec fn active(tokens: Seq<TokenView>, call_id: Seq<char>) -> bool {
    known(tokens, call_id) && tokens[place(tokens, call_id)].in_flight
}

/// `tokens` without the entry for `call_id`.
pub open spec fn without(tokens: Seq<TokenView>, call_id: Seq<char>) -> Seq<TokenView> {
    if known(tokens, call_id) {
        tokens.remove(place(tokens, call_id))
    } else {
        tokens
    }
}

/// `tokens` with the entry for `call_id` cancelled.
pub open spec fn marked(tokens: Seq<TokenView>, call_id: Seq<char>) -> Seq<TokenView> {
    let i = place(tokens, call_id);
    tokens.update(i, TokenView { cancelled: true, ..tokens[i] })
}

/// A cancellation that waits for its call.
pub open spec fn tombstone(call_id: Seq<char>) -> TokenView {
    TokenView { call_id, cancelled: true, in_flight: false }
}

/// The entry at `i` is the oldest tombstone.
pub open spec fn oldest_tombstone_at(tokens: Seq<TokenView>, i: int) -> bool {
    &&& 0 <= i < tokens.len()
    &&& tokens[i].cancelled && !tokens[i].in_flight
    &&& forall|j: int|
        0 <= j < i ==> !((#[trigger] tokens[j]).cancelled && !tokens[j].in_flight)
}

/// Where there are too many entries, the oldest tombstone goes, or the oldest entry where there is
/// no tombstone.
pub open spec fn evicted(tokens: Seq<TokenView>) -> Seq<TokenView> {
    if tokens.len() <= CANCEL_TOKENS_MAX {
        tokens
    } else if exists|i: int| oldest_tombstone_at(tokens, i) {
        tokens.remove(choose|i: int| oldest_tombstone_at(tokens, i))
    } else {
        tokens.remove(0)
    }
}

/// Each call id has one entry at most, and there are not too many.
pub open spec fn well_kept(tokens: Seq<TokenView>) -> bool {
    &&& tokens.len() <= CANCEL_TOKENS_MAX
    &&& ids_once(tokens)
}

/// No call id has two entries.
pub open spec fn ids_once(tokens: Seq<TokenView>) -> bool {
    forall|i: int, j: int|
        0 <= i < j < tokens.len() ==> (#[trigger] tokens[i]).call_id != (
        #[trigger] tokens[j]).call_id
}

proof fn lemma_place(tokens: Seq<TokenView>, call_id: Seq<char>, i: int)
    requires
        ids_once(tokens),
        entry_at(tokens, call_id, i),
    ensures
        known(tokens, call_id),
        place(tokens, call_id) == i,
{
    assert(entry_at(tokens, call_id, place(tokens, call_id)));
}

proof fn lemma_oldest_tombstone(tokens: Seq<TokenView>, i: int)
    requires
        oldest_tombstone_at(tokens, i),
    ensures
        (choose|k: int| oldest_tombstone_at(tokens, k)) == i,
{
    let k = choose|k: int| oldest_tombstone_at(tokens, k);
    assert(oldest_tombstone_at(tokens, k));
    if k < i {
        assert(tokens[k].cancelled);
    }
    if i < k {
        assert(tokens[i].cancelled);
    }
}

impl CancelTokens {
    #[verifier::type_invariant]
    spec fn kept(self) -> bool {
        well_kept(self@)
    }

    /// No call is registered.
    pub fn new() -> (tokens: CancelTokens)
        ensures
            tokens@ == Seq::<TokenView>::empty(),
    {
        let entries: Vec<CancelEntry> = Vec::new();
        assert(tokens_of(entries@) =~= Seq::<TokenView>::empty());
        CancelTokens { entries }
    }

    /// The number of entries, which stays within the bound.
    pub fn len(&self) -> (n: usize)
        ensures
            n == self@.len(),
            well_kept(self@),
    {
        proof {
            use_type_invariant(self);
        }
        self.entries.len()
    }

    fn find(&self, call_id: &str) -> (r: Option<usize>)
        ensures
            match r {
                Some(i) => entry_at(self@, call_id@, i as int),
                None => !known(self@, call_id@),
            },
    {
        let mut i: usize = 0;
        while i < self.entries.len()
            invariant
                i <= self.entries.len(),
                self@.len() == self.entries@.len(),
                forall|j: int| 0 <= j < i ==> (#[trigger] self@[j]).call_id != call_id@,
            decreases self.entries.len() - i,
        {
            assert(self@[i as int] == self.entries@[i as int]@);
            if text::same(self.entries[i].call_id.as_str(), call_id) {
                return Some(i);
            }
            i = i + 1;
        }
        assert forall|j: int| !entry_at(self@, call_id@, j) by {}
        None
    }

    /// Whether `call_id` was cancelled.
    pub fn is_cancelled(&self, call_id: &str) -> (b: bool)
        ensures
            b == is_cancelled(self@, call_id@),
    {
        proof {
            use_type_invariant(self);
        }
        match self.find(call_id) {
            Some(i) => {
                proof {
                    lemma_place(self@, call_id@, i as int);
                }
                self.entries[i].cancelled
            },
            None => false,
        }
    }

    /// Cancels the call `call_id`, and tells whether it is active. Where nothing is known of it, a
    /// tombstone is left.
    pub fn cancel_call(&mut self, call_id: &str) -> (found: bool)
        ensures
            found == active(old(self)@, call_id@),
            final(self)@ == (if known(old(self)@, call_id@) {
                marked(old(self)@, call_id@)
            } else {
                evicted(old(self)@.push(tombstone(call_id@)))
            }),
    {
        proof {
            use_type_invariant(&*self);
        }
        let ghost before = self@;
        let found = self.find(call_id);
        let mut entries: Vec<CancelEntry> = Vec::new();
        std::mem::swap(&mut entries, &mut self.entries);
        match found {
            Some(i) => {
                proof {
                    lemma_place(before, call_id@, i as int);
                }
                let entry = CancelEntry {
                    call_id: entries[i].call_id.clone(),
                    cancelled: true,
                    in_flight: entries[i].in_flight,
                };
                let in_flight = entry.in_flight;
                assert(in_flight == before[i as int].in_flight) by {
                    assert(before[i as int] == tokens_of(entries@)[i as int]);
                }
                entries[i] = entry;
                let ghost shape = tokens_of(entries@);
                assert(shape =~= marked(before, call_id@));
                self.entries = entries;
                in_flight
            },
            None => {
                let entry = CancelEntry {
                    call_id: call_id.to_string(),
                    cancelled: true,
                    in_flight: false,
                };
                entries.push(entry);
                let ghost shape = tokens_of(entries@);
                assert(shape =~= before.push(tombstone(call_id@)));
                assert(ids_once(shape)) by {
                    assert forall|j: int| 0 <= j < before.len() implies (
                    #[trigger] before[j]).call_id != call_id@ by {
                        if before[j].call_id == call_id@ {
                            assert(entry_at(before, call_id@, j));
                        }
                    }
                }
                self.entries = evict(entries);
                false
            },
        }
    }

    /// Registers the call `call_id`, and tells whether it begins cancelled.
    pub fn begin_call(&mut self, call_id: &str) -> (cancelled: bool)
        ensures
            cancelled == is_cancelled(old(self)@, call_id@),
            final(self)@ == evicted(
                without(old(self)@, call_id@).push(
                    TokenView { call_id: call_id@, cancelled, in_flight: true },
                ),
            ),
    {
        let ghost before = self@;
        let cancelled = self.is_cancelled(call_id);
        self.end_call(call_id);
        proof {
            use_type_invariant(&*self);
        }
        let ghost rest = self@;
        let mut entries: Vec<CancelEntry> = Vec::new();
        std::mem::swap(&mut entries, &mut self.entries);
        entries.push(CancelEntry { call_id: call_id.to_string(), cancelled, in_flight: true });
        let ghost shape = tokens_of(entries@);
        proof {
            let token = TokenView { call_id: call_id@, cancelled, in_flight: true };
            assert(shape =~= rest.push(token));
            assert forall|j: int| 0 <= j < rest.len() implies (#[trigger] rest[j]).call_id
                != call_id@ by {
                if rest[j].call_id == call_id@ {
                    assert(entry_at(rest, call_id@, j));
                }
            }
            assert(ids_once(shape));
        }
        self.entries = evict(entries);
        cancelled
    }

    /// Releases the call `call_id`.
    pub fn end_call(&mut self, call_id: &str)
        ensures
            final(self)@ == without(old(self)@, call_id@),
            !known(final(self)@, call_id@),
    {
        proof {
            use_type_invariant(&*self);
        }
        let ghost before = self@;
        let found = self.find(call_id);
        let mut entries: Vec<CancelEntry> = Vec::new();
        std::mem::swap(&mut entries, &mut self.entries);
        if let Some(i) = found {
            proof {
                lemma_place(before, call_id@, i as int);
            }
            let _ = entries.remove(i);
        }
        let ghost shape = tokens_of(entries@);
        proof {
            assert(shape =~= without(before, call_id@));
            assert forall|j: int| !entry_at(shape, call_id@, j) by {
                if entry_at(shape, call_id@, j) && known(before, call_id@) {
                    let p = place(before, call_id@);
                    assert(entry_at(before, call_id@, p));
                    assert(shape[j] == before[if j < p { j } else { j + 1 }]);
                }
            }
        }
        self.entries = entries;
    }
}

/// A cancellation that comes before its call is seen when the call begins, unless the table is full
/// of entries that all rank before the new tombstone.
pub proof fn law_cancel_before_begin(tokens: Seq<TokenView>, call_id: Seq<char>)
    requires
        well_kept(tokens),
        !known(tokens, call_id),
        tokens.len() < CANCEL_TOKENS_MAX || exists|i: int| oldest_tombstone_at(tokens, i),
    ensures
        is_cancelled(evicted(tokens.push(tombstone(call_id))), call_id),
{
    let pushed = tokens.push(tombstone(call_id));
    let after = evicted(pushed);
    assert forall|j: int| 0 <= j < tokens.len() implies (#[trigger] tokens[j]).call_id
        != call_id by {
        if tokens[j].call_id == call_id {
            assert(entry_at(tokens, call_id, j));
        }
    }
    assert(ids_once(pushed));
    if tokens.len() == CANCEL_TOKENS_MAX {
        let i = choose|i: int| oldest_tombstone_at(tokens, i);
        assert(oldest_tombstone_at(pushed, i));
        lemma_oldest_tombstone(pushed, i);
        assert(after =~= pushed.remove(i));
    }
    let last = after.len() - 1;
    assert(entry_at(after, call_id, last));
    assert(ids_once(after));
    lemma_place(after, call_id, last);
}

/// Cancelling a registered call is seen by it and leaves every other call as it was.
pub proof fn law_cancel_marks_one(tokens: Seq<TokenView>, call_id: Seq<char>, other: Seq<char>)
    requires
        well_kept(tokens),
        known(tokens, call_id),
    ensures
        is_cancelled(marked(tokens, call_id), call_id),
        other != call_id ==> is_cancelled(marked(tokens, call_id), other) == is_cancelled(
            tokens,
            other,
        ),
        known(marked(tokens, call_id), other) == known(tokens, other),
{
    let after = marked(tokens, call_id);
    let p = place(tokens, call_id);
    assert(entry_at(tokens, call_id, p));
    assert(entry_at(after, call_id, p));
    assert(ids_once(after));
    lemma_place(after, call_id, p);
    if known(tokens, other) {
        let q = place(tokens, other);
        assert(entry_at(tokens, other, q));
        assert(entry_at(after, other, q));
        lemma_place(after, other, q);
    } else if known(after, other) {
        let q = place(after, other);
        assert(entry_at(after, other, q));
        assert(entry_at(tokens, other, q));
    }
}

/// A call that was released begins anew uncancelled.
pub proof fn law_released_is_forgotten(tokens: Seq<TokenView>, call_id: Seq<char>)
    requires
        well_kept(tokens),
    ensures
        !is_cancelled(without(tokens, call_id), call_id),
{
    let after = without(tokens, call_id);
    if known(after, call_id) {
        let j = place(after, call_id);
        assert(entry_at(after, call_id, j));
        if known(tokens, call_id) {
            let p = place(tokens, call_id);
            assert(entry_at(tokens, call_id, p));
            assert(after[j] == tokens[if j < p { j } else { j + 1 }]);
        }
    }
}

/// A cancellation makes no call active: however often an id is cancelled for which no call is
/// active, it is not told to be.
pub proof fn law_cancel_activates_nothing(tokens: Seq<TokenView>, call_id: Seq<char>)
    requires
        well_kept(tokens),
        !active(tokens, call_id),
    ensures
        !active(
            if known(tokens, call_id) {
                marked(tokens, call_id)
            } else {
                evicted(tokens.push(tombstone(call_id)))
            },
            call_id,
        ),
{
    if known(tokens, call_id) {
        let after = marked(tokens, call_id);
        let p = place(tokens, call_id);
        assert(entry_at(tokens, call_id, p));
        assert(entry_at(after, call_id, p));
        assert(ids_once(after));
        lemma_place(after, call_id, p);
    } else {
        let pushed = tokens.push(tombstone(call_id));
        let after = evicted(pushed);
        if known(after, call_id) {
            let q = place(after, call_id);
            assert(entry_at(after, call_id, q));
            assert(pushed.contains(after[q])) by {
                assert(exists|j: int| 0 <= j < pushed.len() && pushed[j] == after[q]) by {
                    if after.len() == pushed.len() {
                        assert(pushed[q] == after[q]);
                    } else {
                        assert(pushed[q] == after[q] || pushed[q + 1] == after[q]);
                    }
                }
            }
            let j = choose|j: int| 0 <= j < pushed.len() && pushed[j] == after[q];
            if j < tokens.len() {
                assert(entry_at(tokens, call_id, j));
            }
        }
    }
}

/// A call that is in flight is evicted only where there is no tombstone.
pub proof fn law_eviction_prefers_tombstones(tokens: Seq<TokenView>, i: int, kept: int)
    requires
        tokens.len() == CANCEL_TOKENS_MAX + 1,
        0 <= i < tokens.len(),
        tokens[i].cancelled && !tokens[i].in_flight,
        0 <= kept < tokens.len(),
        tokens[kept].in_flight,
    ensures
        evicted(tokens).contains(tokens[kept]),
    decreases i,
{
    if forall|j: int| 0 <= j < i ==> !((#[trigger] tokens[j]).cancelled && !tokens[j].in_flight) {
        assert(oldest_tombstone_at(tokens, i));
        lemma_oldest_tombstone(tokens, i);
        let after = tokens.remove(i);
        assert(after[if kept < i { kept } else { kept - 1 }] == tokens[kept]);
    } else {
        let j = choose|j: int|
            0 <= j < i && (#[trigger] tokens[j]).cancelled && !tokens[j].in_flight;
        law_eviction_prefers_tombstones(tokens, j, kept);
    }
}

/// Brings the entries back within the bound.
fn evict(all: Vec<CancelEntry>) -> (r: Vec<CancelEntry>)
    requires
        all.len() <= CANCEL_TOKENS_MAX + 1,
        ids_once(tokens_of(all@)),
    ensures
        tokens_of(r@) == evicted(tokens_of(all@)),
        well_kept(tokens_of(r@)),
{
    let ghost tokens = tokens_of(all@);
    let mut entries = all;
    if entries.len() <= CANCEL_TOKENS_MAX {
        return entries;
    }
    let mut i: usize = 0;
    while i < entries.len()
        invariant
            i <= entries.len(),
            entries.len() == CANCEL_TOKENS_MAX + 1,
            tokens == tokens_of(entries@),
            tokens == tokens_of(all@),
            tokens.len() == entries.len(),
            ids_once(tokens),
            forall|j: int|
                0 <= j < i ==> !((#[trigger] tokens[j]).cancelled && !tokens[j].in_flight),
        decreases entries.len() - i,
    {
        assert(tokens[i as int] == entries@[i as int]@);
        if entries[i].cancelled && !entries[i].in_flight {
            proof {
                assert(oldest_tombstone_at(tokens, i as int));
                lemma_oldest_tombstone(tokens, i as int);
            }
            let _ = entries.remove(i);
            assert(tokens_of(entries@) =~= tokens.remove(i as int));
            return entries;
        }
        i = i + 1;
    }
    assert forall|j: int| !oldest_tombstone_at(tokens, j) by {}
    let _ = entries.remove(0);
    assert(tokens_of(entries@) =~= tokens.remove(0));
    entries
}

/// A call is cancelled from the time that it is, whether it has begun or not, until it is released;
/// cancelling it tells whether it is active.
pub proof fn law_cancelled_calls_stay_cancelled(
    tokens: &mut CancelTokens,
    beginning: &mut CancelTokens,
    ending: &mut CancelTokens,
    call_id: &str,
    found: bool,
    seen: bool,
    begins_cancelled: bool,
    running: bool,
    released: bool,
    fresh: CancelTokens,
    none: usize,
)
    requires
        well_kept(old(tokens)@),
        old(tokens)@.len() < 4096,
        call_ensures(CancelTokens::cancel_call, (tokens, call_id), found),
        call_ensures(CancelTokens::is_cancelled, (&*final(tokens), call_id), seen),
        *old(beginning) == *final(tokens),
        call_ensures(CancelTokens::begin_call, (beginning, call_id), begins_cancelled),
        call_ensures(CancelTokens::is_cancelled, (&*final(beginning), call_id), running),
        *old(ending) == *final(beginning),
        call_ensures(CancelTokens::end_call, (ending, call_id), ()),
        call_ensures(CancelTokens::is_cancelled, (&*final(ending), call_id), released),
        call_ensures(CancelTokens::new, (), fresh),
        call_ensures(CancelTokens::len, (&fresh,), none),
    ensures
        seen,
        begins_cancelled,
        running,
        !released,
        none == 0,
        found == exists|i: int|
            0 <= i < old(tokens)@.len() && (#[trigger] old(tokens)@[i]).call_id == call_id@
                && old(tokens)@[i].in_flight,
{
    let before = old(tokens)@;
    let after = final(tokens)@;
    if known(before, call_id@) {
        let p = place(before, call_id@);
        assert(entry_at(before, call_id@, p));
        assert(before[p].call_id == call_id@);
        assert(entry_at(after, call_id@, p));
        assert(ids_once(after));
        lemma_place(after, call_id@, p);
        if exists|i: int|
            0 <= i < before.len() && (#[trigger] before[i]).call_id == call_id@
                && before[i].in_flight {
            let i = choose|i: int|
                0 <= i < before.len() && (#[trigger] before[i]).call_id == call_id@
                    && before[i].in_flight;
            assert(i == p);
        }
    } else {
        let n = before.len() as int;
        assert(after == before.push(tombstone(call_id@)));
        assert(entry_at(after, call_id@, n));
        assert forall|j: int| 0 <= j < n implies (#[trigger] before[j]).call_id != call_id@ by {
            if before[j].call_id == call_id@ {
                assert(entry_at(before, call_id@, j));
            }
        }
        assert(ids_once(after));
        lemma_place(after, call_id@, n);
    }
    let p = place(after, call_id@);
    assert(entry_at(after, call_id@, p));
    let rest = after.remove(p);
    let now = final(beginning)@;
    let token = TokenView { call_id: call_id@, cancelled: true, in_flight: true };
    assert(rest.len() + 1 == after.len());
    assert(now == rest.push(token));
    let last = rest.len() as int;
    assert(entry_at(now, call_id@, last));
    assert forall|j: int| 0 <= j < last implies (#[trigger] rest[j]).call_id != call_id@ by {
        let k = if j < p {
            j
        } else {
            j + 1
        };
        assert(rest[j] == after[k]);
    }
    let q = place(now, call_id@);
    assert(entry_at(now, call_id@, q));
    assert(q == last);
}

/// A call that nobody cancelled begins, and runs, uncancelled.
pub proof fn law_other_calls_are_not_cancelled(
    tokens: &mut CancelTokens,
    call_id: &str,
    before: bool,
    begins_cancelled: bool,
)
    requires
        call_ensures(CancelTokens::is_cancelled, (&*old(tokens), call_id), before),
        call_ensures(CancelTokens::begin_call, (tokens, call_id), begins_cancelled),
    ensures
        begins_cancelled == before,
        (forall|i: int|
            0 <= i < old(tokens)@.len() ==> (#[trigger] old(tokens)@[i]).call_id != call_id@)
            ==> !begins_cancelled,
{
    if known(old(tokens)@, call_id@) {
        let p = place(old(tokens)@, call_id@);
        assert(entry_at(old(tokens)@, call_id@, p));
        assert(old(tokens)@[p].call_id == call_id@);
    }
}

/// As many as 4096 calls are kept, and never more.
pub proof fn law_not_too_many_calls_are_kept(
    tokens: &mut CancelTokens,
    call_id: &str,
    begins_cancelled: bool,
    n: usize,
)
    requires
        call_ensures(CancelTokens::begin_call, (tokens, call_id), begins_cancelled),
        call_ensures(CancelTokens::len, (&*final(tokens),), n),
        forall|i: int|
            0 <= i < old(tokens)@.len() ==> (#[trigger] old(tokens)@[i]).call_id != call_id@,
    ensures
        n <= 4096,
        old(tokens)@.len() < 4096 ==> n == old(tokens)@.len() + 1,
{
    if known(old(tokens)@, call_id@) {
        let p = place(old(tokens)@, call_id@);
        assert(entry_at(old(tokens)@, call_id@, p));
    }
}

/// What happens to one call leaves every other as it was.
pub proof fn law_other_calls_are_left_alone(
    tokens: &mut CancelTokens,
    releasing: &mut CancelTokens,
    beginning: &mut CancelTokens,
    call_id: &str,
    other: &str,
    found: bool,
    begins_cancelled: bool,
    before: bool,
    after_cancel: bool,
    after_release: bool,
    after_begin: bool,
)
    requires
        other@ != call_id@,
        well_kept(old(tokens)@),
        old(tokens)@.len() < 4096,
        *old(releasing) == *old(tokens),
        *old(beginning) == *old(tokens),
        call_ensures(CancelTokens::is_cancelled, (&*old(tokens), other), before),
        call_ensures(CancelTokens::cancel_call, (tokens, call_id), found),
        call_ensures(CancelTokens::end_call, (releasing, call_id), ()),
        call_ensures(CancelTokens::begin_call, (beginning, call_id), begins_cancelled),
        call_ensures(CancelTokens::is_cancelled, (&*final(tokens), other), after_cancel),
        call_ensures(CancelTokens::is_cancelled, (&*final(releasing), other), after_release),
        call_ensures(CancelTokens::is_cancelled, (&*final(beginning), other), after_begin),
    ensures
        after_cancel == before,
        after_release == before,
        after_begin == before,
{
    let all = old(tokens)@;
    let rest = without(all, call_id@);
    lemma_others_stay(all, call_id@, other@);
    let begun = TokenView { call_id: call_id@, cancelled: begins_cancelled, in_flight: true };
    assert(final(beginning)@ == rest.push(begun));
    lemma_pushed(rest, begun, other@);
    if known(all, call_id@) {
        lemma_marked(all, call_id@, other@);
    } else {
        assert(final(tokens)@ == all.push(tombstone(call_id@)));
        lemma_pushed(all, tombstone(call_id@), other@);
    }
}

pub(crate) proof fn lemma_marked(tokens: Seq<TokenView>, call_id: Seq<char>, other: Seq<char>)
    requires
        ids_once(tokens),
        known(tokens, call_id),
        other != call_id,
    ensures
        is_cancelled(marked(tokens, call_id), other) == is_cancelled(tokens, other),
{
    let p = place(tokens, call_id);
    assert(entry_at(tokens, call_id, p));
    let after = marked(tokens, call_id);
    assert(ids_once(after));
    if known(tokens, other) {
        let q = place(tokens, other);
        assert(entry_at(tokens, other, q));
        assert(entry_at(after, other, q));
        lemma_place(after, other, q);
    } else if known(after, other) {
        let q = place(after, other);
        assert(entry_at(after, other, q));
        assert(entry_at(tokens, other, q));
    }
}

pub(crate) proof fn lemma_pushed(tokens: Seq<TokenView>, token: TokenView, other: Seq<char>)
    requires
        ids_once(tokens),
        token.call_id != other,
    ensures
        is_cancelled(tokens.push(token), other) == is_cancelled(tokens, other),
{
    let after = tokens.push(token);
    if known(tokens, other) {
        let q = place(tokens, other);
        assert(entry_at(tokens, other, q));
        assert(entry_at(after, other, q));
        let k = place(after, other);
        assert(entry_at(after, other, k));
        assert(entry_at(tokens, other, k));
        lemma_place(tokens, other, k);
    } else if known(after, other) {
        let k = place(after, other);
        assert(entry_at(after, other, k));
        assert(entry_at(tokens, other, k));
    }
}

pub(crate) proof fn lemma_others_stay(tokens: Seq<TokenView>, call_id: Seq<char>, other: Seq<char>)
    requires
        ids_once(tokens),
        other != call_id,
    ensures
        ids_once(without(tokens, call_id)),
        is_cancelled(without(tokens, call_id), other) == is_cancelled(tokens, other),
{
    if known(tokens, call_id) {
        let p = place(tokens, call_id);
        assert(entry_at(tokens, call_id, p));
        let after = tokens.remove(p);
        assert forall|i: int, j: int| 0 <= i < j < after.len() implies (
        #[trigger] after[i]).call_id != (#[trigger] after[j]).call_id by {
            let k = if i < p {
                i
            } else {
                i + 1
            };
            let m = if j < p {
                j
            } else {
                j + 1
            };
            assert(after[i] == tokens[k] && after[j] == tokens[m]);
        }
        if known(tokens, other) {
            let q = place(tokens, other);
            assert(entry_at(tokens, other, q));
            let k = if q < p {
                q
            } else {
                q - 1
            };
            assert(after[k] == tokens[q]);
            assert(entry_at(after, other, k));
            lemma_place(after, other, k);
        } else if known(after, other) {
            let k = place(after, other);
            assert(entry_at(after, other, k));
            let q = if k < p {
                k
            } else {
                k + 1
            };
            assert(entry_at(tokens, other, q));
        }
    }
}

/// Where 4096 calls are kept and another one begins, the oldest tombstone goes, or the oldest call
/// where there is no tombstone; all others stay in their order.
pub proof fn law_the_oldest_goes(
    tokens: &mut CancelTokens,
    call_id: &str,
    begins_cancelled: bool,
    i: int,
)
    requires
        call_ensures(CancelTokens::begin_call, (tokens, call_id), begins_cancelled),
        old(tokens)@.len() == 4096,
        forall|j: int|
            0 <= j < old(tokens)@.len() ==> (#[trigger] old(tokens)@[j]).call_id != call_id@,
    ensures
        ({
            let before = old(tokens)@;
            let begun = TokenView { call_id: call_id@, cancelled: false, in_flight: true };
            &&& (forall|j: int|
                0 <= j < before.len() ==> !(#[trigger] before[j]).cancelled || before[j].in_flight)
                ==> final(tokens)@ == before.skip(1).push(begun)
            &&& 0 <= i < before.len() && before[i].cancelled && !before[i].in_flight && (forall|
                j: int,
            |
                0 <= j < i ==> !(#[trigger] before[j]).cancelled || before[j].in_flight)
                ==> final(tokens)@ == before.remove(i).push(begun)
        }),
{
    let before = old(tokens)@;
    if known(before, call_id@) {
        let p = place(before, call_id@);
        assert(entry_at(before, call_id@, p));
    }
    let begun = TokenView { call_id: call_id@, cancelled: false, in_flight: true };
    let all = before.push(begun);
    assert(final(tokens)@ == evicted(all));
    if forall|j: int|
        0 <= j < before.len() ==> !(#[trigger] before[j]).cancelled || before[j].in_flight {
        if exists|k: int| oldest_tombstone_at(all, k) {
            let k = choose|k: int| oldest_tombstone_at(all, k);
            assert(oldest_tombstone_at(all, k));
            if k < before.len() {
                assert(all[k] == before[k]);
            }
        }
        assert(all.remove(0) =~= before.skip(1).push(begun));
    }
    if 0 <= i < before.len() && before[i].cancelled && !before[i].in_flight && (forall|j: int|
        0 <= j < i ==> !(#[trigger] before[j]).cancelled || before[j].in_flight) {
        assert forall|j: int| 0 <= j < i implies !((#[trigger] all[j]).cancelled
            && !all[j].in_flight) by {
            assert(all[j] == before[j]);
        }
        assert(all[i] == before[i]);
        assert(oldest_tombstone_at(all, i));
        lemma_oldest_tombstone(all, i);
        assert(all.remove(i) =~= before.remove(i).push(begun));
    }
}

} // verus!
