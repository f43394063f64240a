//! Callbacks of running calls, found again by an opaque id.
//!
//! A call that may ask its client registers a callback and passes on its id. The callback is found
//! under that id for as long as the call holds its guard.

use crate::ids;
use crate::table::Table;
use vstd::prelude::*;

verus! {

/// The callbacks that are registered, by their ids.
#[verifier::reject_recursive_types(C)]
pub struct ElicitRegistry<C> {
    callbacks: Table<C>,
}

impl<C> View for ElicitRegistry<C> {
    type V = Map<Seq<char>, C>;

    closed spec fn view(&self) -> Map<Seq<char>, C> {
        self.callbacks@
    }
}

/// Stands for one registered callback.
#[derive(Debug)]
pub struct ElicitGuard {
    id: String,
}

impl View for ElicitGuard {
    type V = Seq<char>;

    closed spec fn view(&self) -> Seq<char> {
        self.id@
    }
}

impl ElicitGuard {
    /// The id to pass on.
    pub fn id(&self) -> (id: &str)
        ensures
            id@ == self@,
    {
        self.id.as_str()
    }
}

impl<C> ElicitRegistry<C> {
    /// No callback is registered.
    pub fn new() -> (registry: ElicitRegistry<C>)
        ensures
            registry@ == Map::<Seq<char>, C>::empty(),
    {
        ElicitRegistry { callbacks: Table::new() }
    }

    /// Registers `callback` under a fresh random id.
    pub fn register(&mut self, callback: C) -> (guard: ElicitGuard)
        ensures
            ids::uuid_text(guard@),
            final(self)@ == old(self)@.insert(guard@, callback),
    {
        let id = ids::fresh_uuid();
        self.callbacks.insert(id.as_str(), callback);
        ElicitGuard { id }
    }

    /// The callback that is registered under `id`; nothing once its call has ended.
    pub fn lookup(&self, id: &str) -> (callback: Option<&C>)
        ensures
            match callback {
                Some(c) => self@.contains_key(id@) && *c == self@[id@],
                None => !self@.contains_key(id@),
            },
    {
        self.callbacks.get(id)
    }

    /// Ends the registration that `guard` stands for.
    pub fn release(&mut self, guard: ElicitGuard)
        ensures
            final(self)@ == old(self)@.remove(guard@),
    {
        self.callbacks.remove(guard.id.as_str());
    }

    /// The number of callbacks.
    pub fn len(&self) -> (n: usize)
        ensures
            self@.dom().finite(),
            n == self@.len(),
    {
        self.callbacks.len()
    }
}

/// A callback is found from its registration until its release and not after, and neither touches
/// any other callback. Where its id was free, nothing is left of it in the end.
pub proof fn law_callback_lives_with_its_guard<C>(
    callbacks: Map<Seq<char>, C>,
    id: Seq<char>,
    callback: C,
    other: Seq<char>,
)
    ensures
        callbacks.insert(id, callback).contains_key(id),
        callbacks.insert(id, callback)[id] == callback,
        !callbacks.insert(id, callback).remove(id).contains_key(id),
        other != id ==> callbacks.insert(id, callback).contains_key(other)
            == callbacks.contains_key(other),
        other != id && callbacks.contains_key(other) ==> callbacks.insert(id, callback)[other]
            == callbacks[other],
        !callbacks.contains_key(id) ==> callbacks.insert(id, callback).remove(id) == callbacks,
{
    if !callbacks.contains_key(id) {
        assert(callbacks.insert(id, callback).remove(id) =~= callbacks);
    }
}

/// Something that happens to the callbacks.
pub enum CallbackEvent<C> {
    /// A callback was registered under this id.
    Registered(Seq<char>, C),
    /// The registration under this id ended.
    Released(Seq<char>),
}

impl<C> CallbackEvent<C> {
    /// The id that the event concerns.
    pub open spec fn id(self) -> Seq<char> {
        match self {
            CallbackEvent::Registered(id, _) => id,
            CallbackEvent::Released(id) => id,
        }
    }
}

/// The callbacks after a history that began with none.
pub open spec fn callbacks_after<C>(history: Seq<CallbackEvent<C>>) -> Map<Seq<char>, C>
    decreases history.len(),
{
    if history.len() == 0 {
        Map::empty()
    } else {
        let before = callbacks_after(history.drop_last());
        match history.last() {
            CallbackEvent::Registered(id, callback) => before.insert(id, callback),
            CallbackEvent::Released(id) => before.remove(id),
        }
    }
}

/// The event at `i` registered `callback` under `id`, and nothing has happened to the id since.
pub open spec fn live_since<C>(
    history: Seq<CallbackEvent<C>>,
    id: Seq<char>,
    callback: C,
    i: int,
) -> bool {
    &&& 0 <= i < history.len()
    &&& history[i] == CallbackEvent::Registered(id, callback)
    &&& forall|j: int| i < j < history.len() ==> (#[trigger] history[j]).id() != id
}

/// Whatever was registered and released, a callback is found under an id exactly where it was
/// registered under it and nothing has happened to the id since; an id under which nothing was
/// registered gives nothing.
pub proof fn law_lookups_give_live_callbacks<C>(
    history: Seq<CallbackEvent<C>>,
    id: Seq<char>,
    callback: C,
)
    ensures
        callbacks_after(history).contains_key(id) && callbacks_after(history)[id] == callback
            <==> exists|i: int| live_since(history, id, callback, i),
        (forall|i: int| 0 <= i < history.len() ==> (#[trigger] history[i]).id() != id)
            ==> !callbacks_after(history).contains_key(id),
    decreases history.len(),
{
    if history.len() > 0 {
        let before = history.drop_last();
        let last = history.len() - 1;
        law_lookups_give_live_callbacks(before, id, callback);
        assert(forall|j: int| 0 <= j < last ==> before[j] == history[j]);
        if history[last].id() == id {
            if history[last] == CallbackEvent::Registered(id, callback) {
                assert(live_since(history, id, callback, last));
            }
            assert forall|i: int| live_since(history, id, callback, i) implies i == last by {
                if i < last {
                    assert(history[last].id() != id);
                }
            }
        } else {
            assert forall|i: int| live_since(before, id, callback, i) implies live_since(
                history,
                id,
                callback,
                i,
            ) by {
                assert forall|j: int| i < j < history.len() implies (#[trigger] history[j]).id()
                    != id by {
                    if j < last {
                        assert(before[j].id() != id);
                    }
                }
            }
            assert forall|i: int| live_since(history, id, callback, i) implies live_since(
                before,
                id,
                callback,
                i,
            ) by {
                assert forall|j: int| i < j < before.len() implies (#[trigger] before[j]).id()
                    != id by {
                    assert(history[j].id() != id);
                }
            }
        }
    }
}

/// Each registration is under an id that is free at the time, as random ids are but for chance.
pub open spec fn ids_fresh<C>(history: Seq<CallbackEvent<C>>) -> bool {
    forall|i: int|
        0 <= i < history.len() && #[trigger] history[i] is Registered ==> !callbacks_after(
            history.take(i),
        ).contains_key(history[i].id())
}

/// The registration at `i` has not ended.
pub open spec fn held<C>(history: Seq<CallbackEvent<C>>, i: int) -> bool {
    &&& 0 <= i < history.len()
    &&& history[i] is Registered
    &&& forall|j: int|
        i < j < history.len() ==> #[trigger] history[j] != CallbackEvent::<C>::Released(
            history[i].id(),
        )
}

/// What is registered is found for as long as its registration has not ended, and no two
/// registrations that have not ended share an id, where each was made under an id that was free at
/// the time.
pub proof fn law_live_guards_have_their_own_ids<C>(
    history: Seq<CallbackEvent<C>>,
    i: int,
    j: int,
)
    requires
        ids_fresh(history),
        held(history, i),
        held(history, j),
    ensures
        callbacks_after(history).contains_key(history[i].id()),
        history[i] == CallbackEvent::Registered(
            history[i].id(),
            callbacks_after(history)[history[i].id()],
        ),
        i != j ==> history[i].id() != history[j].id(),
    decreases history.len(),
{
    let before = history.drop_last();
    let last = history.len() - 1;
    assert(history.take(last) =~= before);
    assert(ids_fresh(before)) by {
        assert forall|k: int|
            0 <= k < before.len() && #[trigger] before[k] is Registered implies !callbacks_after(
            before.take(k),
        ).contains_key(before[k].id()) by {
            assert(before.take(k) =~= history.take(k));
            assert(history[k] is Registered);
        }
    }
    assert forall|k: int| held(history, k) && k < last implies #[trigger] held(before, k) by {
        assert(before[k] == history[k]);
        assert forall|m: int| k < m < before.len() implies #[trigger] before[m]
            != CallbackEvent::<C>::Released(before[k].id()) by {
            assert(before[m] == history[m]);
        }
    }
    if i < last && j < last {
        assert(held(before, i) && held(before, j));
        law_live_guards_have_their_own_ids(before, i, j);
    } else if i < last {
        assert(held(before, i));
        law_live_guards_have_their_own_ids(before, i, i);
    } else if j < last {
        assert(held(before, j));
        law_live_guards_have_their_own_ids(before, j, j);
    }
    if i < last {
        assert(history[last] != CallbackEvent::<C>::Released(history[i].id()));
    }
}

/// A callback is looked up under the id of its guard from its registration to its release, and
/// neither touches the callbacks under other ids.
pub proof fn law_callbacks_are_looked_up<C>(
    registry: &mut ElicitRegistry<C>,
    releasing: &mut ElicitRegistry<C>,
    callback: C,
    guard: ElicitGuard,
    id: &str,
    other: &str,
    found: Option<&C>,
    gone: Option<&C>,
    before: Option<&C>,
    after: Option<&C>,
    fresh: ElicitRegistry<C>,
    none: usize,
)
    requires
        call_ensures(ElicitRegistry::<C>::register, (registry, callback), guard),
        call_ensures(ElicitGuard::id, (&guard,), id),
        call_ensures(ElicitRegistry::<C>::lookup, (&*final(registry), id), found),
        *old(releasing) == *final(registry),
        call_ensures(ElicitRegistry::<C>::release, (releasing, guard), ()),
        call_ensures(ElicitRegistry::<C>::lookup, (&*final(releasing), id), gone),
        other@ != id@,
        call_ensures(ElicitRegistry::<C>::lookup, (&*old(registry), other), before),
        call_ensures(ElicitRegistry::<C>::lookup, (&*final(releasing), other), after),
        call_ensures(ElicitRegistry::<C>::new, (), fresh),
        call_ensures(ElicitRegistry::<C>::len, (&fresh,), none),
    ensures
        found matches Some(c) && *c == callback,
        gone is None,
        match (before, after) {
            (Some(a), Some(b)) => *a == *b,
            (None, None) => true,
            _ => false,
        },
        none == 0,
{
}

/// Each callback is counted once.
pub proof fn law_callbacks_are_counted<C>(
    registry: &mut ElicitRegistry<C>,
    callback: C,
    guard: ElicitGuard,
    n: usize,
    m: usize,
)
    requires
        call_ensures(ElicitRegistry::<C>::len, (&*old(registry),), n),
        call_ensures(ElicitRegistry::<C>::register, (registry, callback), guard),
        !old(registry)@.contains_key(guard@),
        call_ensures(ElicitRegistry::<C>::len, (&*final(registry),), m),
    ensures
        m == n + 1,
        guard@.len() == 36,
{
}

} // verus!
