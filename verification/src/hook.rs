//! What a module exposes, and the registry of what every module exposes.
//!
//! A `Hook` names a module's buses and may carry one shared state value. A
//! `Registry` maps module types to hooks. `Hooks` is the shared handle
//! through which every thread reads the registry that was published last.

use vstd::prelude::*;
use vstd::hash_map::StringHashMap;
use std::any::TypeId;
use std::sync::Arc;
use arc_swap::ArcSwap;
use crossbeam_channel::Receiver;
use crate::event::EventHandler;
use crate::event::InnerEventHandler;
use crate::identity::Erased;
use crate::identity::erase_bus;
use crate::identity::erase_state;
use crate::identity::recall_bus;
use crate::identity::recall_state;
use crate::identity::same_type;
use crate::identity::type_id_of;

verus! {

/// A type-erased value together with the identity of the type it was made
/// from.
struct Tagged {
    tag: TypeId,
    handle: Erased,
}

/// One module's externally visible surface: buses by identifier, and
/// optionally one state value.
pub struct Hook {
    state: Option<Tagged>,
    buses: StringHashMap<Tagged>,
}

/// Module types and the hook registered under each. No type occurs twice.
pub struct Registry {
    slots: Vec<(TypeId, Hook)>,
}

/// The place that holds the published registry. Holds
/// `arc_swap::ArcSwap<Registry>`, whose declaration names a private
/// strategy type. What it holds can be replaced under any shared reference.
#[verifier::external_body]
struct Shelf {
    cell: ArcSwap<Registry>,
}

/// The shared, hot-swappable registry. Clones read and replace the same one.
pub struct Hooks {
    shared: Arc<Shelf>,
}

/// `ArcSwap::from_pointee`: a shelf that holds the given registry.
#[verifier::external_body]
fn shelf_new(registry: Registry) -> (shelf: Shelf)
{
    Shelf { cell: ArcSwap::from_pointee(registry) }
}

/// `ArcSwap::load_full`: the registry that the shelf holds at the moment of
/// the call, whole. Which one that is depends on the stores of all threads.
#[verifier::external_body]
fn shelf_load(shelf: &Shelf) -> (snapshot: Arc<Registry>)
{
    shelf.cell.load_full()
}

/// `ArcSwap::store`: replaces what the shelf holds, in one step.
#[verifier::external_body]
fn shelf_store(shelf: &Shelf, registry: Arc<Registry>)
{
    shelf.cell.store(registry)
}

impl Hook {
    /// The registered identifiers, each with the payload type of its bus.
    pub closed spec fn endpoints(&self) -> Map<Seq<char>, TypeId> {
        self.buses@.map_values(|t: Tagged| t.tag)
    }

    /// The registered identifiers, each with the bus stored under it.
    pub closed spec fn handles(&self) -> Map<Seq<char>, Erased> {
        self.buses@.map_values(|t: Tagged| t.handle)
    }

    /// The type of the state value, if there is one.
    pub closed spec fn state_type(&self) -> Option<TypeId> {
        match self.state {
            Some(t) => Some(t.tag),
            None => None,
        }
    }

    /// The stored state value, if there is one.
    pub closed spec fn state_handle(&self) -> Option<Erased> {
        match self.state {
            Some(t) => Some(t.handle),
            None => None,
        }
    }

    /// Every registered identifier has a payload type and a bus, and no
    /// other identifier has either. A state has a type and a value, or
    /// neither.
    pub proof fn lemma_surface(&self)
        ensures
            self.handles().dom() == self.endpoints().dom(),
            self.state_handle() is Some <==> self.state_type() is Some,
    {
        assert(self.handles().dom() =~= self.endpoints().dom());
    }

    /// A hook that carries `state` and no bus yet.
    pub fn new<T: Send + Sync + 'static>(state: T) -> (hook: Self)
        ensures
            hook.endpoints() == Map::<Seq<char>, TypeId>::empty(),
            hook.handles() == Map::<Seq<char>, Erased>::empty(),
            hook.state_type() is Some,
            hook.state_handle() is Some,
    {
        let tag = type_id_of::<T>();
        let hook = Hook {
            state: Some(Tagged { tag, handle: erase_state(state) }),
            buses: StringHashMap::new(),
        };
        assert(hook.endpoints() =~= Map::<Seq<char>, TypeId>::empty());
        assert(hook.handles() =~= Map::<Seq<char>, Erased>::empty());
        hook
    }

    /// A hook that carries neither state nor bus.
    pub fn empty() -> (hook: Self)
        ensures
            hook.endpoints() == Map::<Seq<char>, TypeId>::empty(),
            hook.handles() == Map::<Seq<char>, Erased>::empty(),
            hook.state_type() is None,
            hook.state_handle() is None,
    {
        let hook = Hook { state: None, buses: StringHashMap::new() };
        assert(hook.endpoints() =~= Map::<Seq<char>, TypeId>::empty());
        assert(hook.handles() =~= Map::<Seq<char>, Erased>::empty());
        hook
    }

    /// Registers `handle` under `id` with payload type `tag`, in place of
    /// whatever `id` named before.
    fn attach(&mut self, id: &str, tag: TypeId, handle: Erased)
        ensures
            final(self).endpoints() == old(self).endpoints().insert(id@, tag),
            final(self).handles() == old(self).handles().insert(id@, handle),
            final(self).state_type() == old(self).state_type(),
            final(self).state_handle() == old(self).state_handle(),
    {
        self.buses.insert(id.to_owned(), Tagged { tag, handle });
        assert(final(self).endpoints() =~= old(self).endpoints().insert(id@, tag));
        assert(final(self).handles() =~= old(self).handles().insert(id@, handle));
    }

    /// Registers a bus under `id`. The last registration of an identifier
    /// wins.
    pub fn add<T: Send + 'static>(&mut self, id: &'static str, handler: EventHandler<T>)
        ensures
            final(self).endpoints().contains_key(id@),
            final(self).handles().contains_key(id@),
            final(self).endpoints().remove(id@) == old(self).endpoints().remove(id@),
            final(self).handles().remove(id@) == old(self).handles().remove(id@),
            final(self).state_type() == old(self).state_type(),
            final(self).state_handle() == old(self).state_handle(),
    {
        let tag = type_id_of::<T>();
        self.attach(id, tag, erase_bus(handler));
        assert(final(self).endpoints().remove(id@) =~= old(self).endpoints().remove(id@));
        assert(final(self).handles().remove(id@) =~= old(self).handles().remove(id@));
    }

    /// As `add`, by value, for chaining.
    pub fn with<T: Send + 'static>(self, id: &'static str, handler: EventHandler<T>) -> (hook:
        Self)
        ensures
            hook.endpoints().contains_key(id@),
            hook.handles().contains_key(id@),
            hook.endpoints().remove(id@) == self.endpoints().remove(id@),
            hook.handles().remove(id@) == self.handles().remove(id@),
            hook.state_type() == self.state_type(),
            hook.state_handle() == self.state_handle(),
    {
        let mut hook = self;
        hook.add(id, handler);
        hook
    }

    /// The bus registered under `id`, if there is one and it carries
    /// `payload`. An unknown identifier and a payload of another type both
    /// give `None`.
    pub fn find(&self, id: &str, payload: &TypeId) -> (found: Option<&Erased>)
        ensures
            found is Some <==> self.endpoints().contains_key(id@) && self.endpoints()[id@]
                == *payload,
            found matches Some(handle) ==> self.handles().contains_key(id@) && *handle
                == self.handles()[id@],
    {
        match self.buses.get(id) {
            None => None,
            Some(tagged) => {
                if same_type(&tagged.tag, payload) {
                    Some(&tagged.handle)
                } else {
                    None
                }
            },
        }
    }

    /// Subscribes to the bus registered under `id`, if there is one and it
    /// carries `T`. Every call that succeeds yields a consumer of its own.
    pub fn get<T: Clone + 'static>(&self, id: &'static str) -> (consumer: Option<Receiver<T>>)
        ensures
            !self.endpoints().contains_key(id@) ==> consumer is None,
    {
        let payload = type_id_of::<T>();
        match self.find(id, &payload) {
            None => None,
            Some(handle) => subscription(recall_bus::<T>(handle)),
        }
    }

    /// The state value, if there is one and it was made from `wanted`.
    pub fn stored(&self, wanted: &TypeId) -> (found: Option<&Erased>)
        ensures
            found is Some <==> self.state_type() == Some(*wanted),
            found matches Some(handle) ==> self.state_handle() == Some(*handle),
    {
        match &self.state {
            None => None,
            Some(tagged) => {
                if same_type(&tagged.tag, wanted) {
                    Some(&tagged.handle)
                } else {
                    None
                }
            },
        }
    }

    /// The state value, if there is one and it is a `T`.
    pub fn state<T: 'static>(&self) -> (state: Option<&T>)
        ensures
            self.state_type() is None ==> state is None,
    {
        let wanted = type_id_of::<T>();
        match self.stored(&wanted) {
            None => None,
            Some(handle) => recall_state::<T>(handle),
        }
    }
}

/// A consumer of its own on `bus`, if there is a bus.
pub fn subscription<T: Clone>(
    bus: Option<&InnerEventHandler<T>>,
) -> (consumer: Option<Receiver<T>>)
    ensures
        consumer is Some <==> bus is Some,
{
    match bus {
        None => None,
        Some(bus) => Some(bus.subscribe()),
    }
}

/// The slot at `at` is registered under `key`.
spec fn slot_of(slots: Seq<(TypeId, Hook)>, key: TypeId, at: int) -> bool {
    0 <= at < slots.len() && slots[at].0 == key
}

/// No module type has two slots.
spec fn distinct(slots: Seq<(TypeId, Hook)>) -> bool {
    forall|i: int, j: int|
        0 <= i < slots.len() && 0 <= j < slots.len() && i != j ==> (#[trigger] slots[i]).0 != (
        #[trigger] slots[j]).0
}

/// The map that a list of slots stands for.
spec fn mapping(slots: Seq<(TypeId, Hook)>) -> Map<TypeId, Hook> {
    Map::new(
        |key: TypeId| exists|at: int| slot_of(slots, key, at),
        |key: TypeId| slots[choose|at: int| slot_of(slots, key, at)].1,
    )
}

/// In a list without repeats, the slot of a key is the one the map shows.
proof fn lemma_mapping_at(slots: Seq<(TypeId, Hook)>, at: int)
    requires
        distinct(slots),
        0 <= at < slots.len(),
    ensures
        mapping(slots).contains_key(slots[at].0),
        mapping(slots)[slots[at].0] == slots[at].1,
{
    let key = slots[at].0;
    assert(slot_of(slots, key, at));
    let w = choose|w: int| slot_of(slots, key, w);
    if w != at {
        assert(slots[w].0 != slots[at].0);
    }
}

/// Replacing the hook in the slot of a key replaces it in the map.
proof fn lemma_replace(before: Seq<(TypeId, Hook)>, at: int, key: TypeId, hook: Hook)
    requires
        distinct(before),
        slot_of(before, key, at),
    ensures
        distinct(before.update(at, (key, hook))),
        mapping(before.update(at, (key, hook))) == mapping(before).insert(key, hook),
{
    let after = before.update(at, (key, hook));
    assert forall|a: int, b: int|
        0 <= a < after.len() && 0 <= b < after.len() && a != b implies (#[trigger] after[a]).0 != (
    #[trigger] after[b]).0 by {
        assert(before[a].0 == after[a].0);
        assert(before[b].0 == after[b].0);
    }
    assert forall|k: TypeId| #[trigger]
        mapping(after).contains_key(k) <==> mapping(before).insert(key, hook).contains_key(k) by {
        if mapping(after).contains_key(k) {
            let w = choose|w: int| slot_of(after, k, w);
            assert(slot_of(before, k, w));
        }
        if mapping(before).contains_key(k) {
            let w = choose|w: int| slot_of(before, k, w);
            assert(slot_of(after, k, w));
        }
        if k == key {
            assert(slot_of(after, k, at));
        }
    }
    assert forall|k: TypeId| #[trigger] mapping(after).contains_key(k) implies mapping(after)[k]
        == mapping(before).insert(key, hook)[k] by {
        let w = choose|w: int| slot_of(after, k, w);
        lemma_mapping_at(after, w);
        if k != key {
            lemma_mapping_at(before, w);
        } else if w != at {
            assert(after[w].0 != after[at].0);
        }
    }
    assert(mapping(after) =~= mapping(before).insert(key, hook));
}

/// Appending a slot for a key that has none adds the key to the map.
proof fn lemma_append(before: Seq<(TypeId, Hook)>, key: TypeId, hook: Hook)
    requires
        distinct(before),
        !mapping(before).contains_key(key),
    ensures
        distinct(before.push((key, hook))),
        mapping(before.push((key, hook))) == mapping(before).insert(key, hook),
{
    let after = before.push((key, hook));
    let last = before.len() as int;
    assert forall|a: int, b: int|
        0 <= a < after.len() && 0 <= b < after.len() && a != b implies (#[trigger] after[a]).0 != (
    #[trigger] after[b]).0 by {
        if a < last && b == last {
            assert(slot_of(before, key, a) ==> mapping(before).contains_key(key));
        }
        if b < last && a == last {
            assert(slot_of(before, key, b) ==> mapping(before).contains_key(key));
        }
    }
    assert forall|k: TypeId| #[trigger]
        mapping(after).contains_key(k) <==> mapping(before).insert(key, hook).contains_key(k) by {
        if mapping(after).contains_key(k) {
            let w = choose|w: int| slot_of(after, k, w);
            if w < last {
                assert(slot_of(before, k, w));
            }
        }
        if mapping(before).contains_key(k) {
            let w = choose|w: int| slot_of(before, k, w);
            assert(slot_of(after, k, w));
        }
        if k == key {
            assert(slot_of(after, k, last));
        }
    }
    assert forall|k: TypeId| #[trigger] mapping(after).contains_key(k) implies mapping(after)[k]
        == mapping(before).insert(key, hook)[k] by {
        let w = choose|w: int| slot_of(after, k, w);
        lemma_mapping_at(after, w);
        if k != key {
            lemma_mapping_at(before, w);
        } else if w != last {
            assert(after[w].0 != after[last].0);
        }
    }
    assert(mapping(after) =~= mapping(before).insert(key, hook));
}

/// A list without repeats stands for a finite map with one key per slot.
proof fn lemma_mapping_len(slots: Seq<(TypeId, Hook)>)
    requires
        distinct(slots),
    ensures
        mapping(slots).dom().finite(),
        mapping(slots).dom().len() == slots.len(),
    decreases slots.len(),
{
    if slots.len() == 0 {
        assert(mapping(slots).dom() =~= Set::<TypeId>::empty());
    } else {
        let front = slots.drop_last();
        let (key, hook) = slots.last();
        assert forall|a: int, b: int|
            0 <= a < front.len() && 0 <= b < front.len() && a != b implies (#[trigger] front[a]).0
            != (#[trigger] front[b]).0 by {
            assert(front[a] == slots[a]);
            assert(front[b] == slots[b]);
        }
        assert(!mapping(front).contains_key(key)) by {
            if mapping(front).contains_key(key) {
                let w = choose|w: int| slot_of(front, key, w);
                assert(slots[w].0 != slots[slots.len() - 1].0);
            }
        }
        lemma_mapping_len(front);
        lemma_append(front, key, hook);
        assert(front.push((key, hook)) =~= slots);
        assert(mapping(slots).dom() =~= mapping(front).dom().insert(key));
    }
}

impl View for Registry {
    type V = Map<TypeId, Hook>;

    closed spec fn view(&self) -> Map<TypeId, Hook> {
        mapping(self.slots@)
    }
}

impl Registry {
    #[verifier::type_invariant]
    spec fn well_formed(self) -> bool {
        distinct(self.slots@)
    }

    /// A registry without modules.
    pub fn new() -> (registry: Self)
        ensures
            registry@ == Map::<TypeId, Hook>::empty(),
    {
        let registry = Registry { slots: Vec::new() };
        assert(registry@ =~= Map::<TypeId, Hook>::empty());
        registry
    }

    /// Where `key` is registered, if it is.
    fn position(&self, key: &TypeId) -> (at: Option<usize>)
        ensures
            at matches Some(i) ==> slot_of(self.slots@, *key, i as int),
            at is None ==> !self@.contains_key(*key),
    {
        let mut i: usize = 0;
        while i < self.slots.len()
            invariant
                i <= self.slots@.len(),
                forall|j: int| 0 <= j < i ==> (#[trigger] self.slots@[j]).0 != *key,
            decreases self.slots@.len() - i,
        {
            if same_type(&self.slots[i].0, key) {
                return Some(i);
            }
            i += 1;
        }
        assert(!self@.contains_key(*key)) by {
            if self@.contains_key(*key) {
                let w = choose|w: int| slot_of(self.slots@, *key, w);
                assert(self.slots@[w].0 != *key);
            }
        }
        None
    }

    /// Registers `hook` under `key`, in place of whatever `key` named before.
    pub fn insert(&mut self, key: TypeId, hook: Hook)
        ensures
            final(self)@ == old(self)@.insert(key, hook),
    {
        proof {
            use_type_invariant(&*self);
        }
        let ghost before = self.slots@;
        let found = self.position(&key);
        // The slots are taken out whole, changed, and put back whole: the
        // invariant is held by the registry, not by a borrow of its field.
        let mut taken = Registry { slots: Vec::new() };
        std::mem::swap(self, &mut taken);
        let mut slots = taken.slots;
        match found {
            Some(i) => {
                slots.set(i, (key, hook));
                proof {
                    lemma_replace(before, i as int, key, hook);
                }
            },
            None => {
                slots.push((key, hook));
                proof {
                    lemma_append(before, key, hook);
                }
            },
        }
        *self = Registry { slots };
    }

    /// The hook registered under `key`, if there is one.
    pub fn get(&self, key: &TypeId) -> (hook: Option<&Hook>)
        ensures
            match hook {
                Some(h) => self@.contains_key(*key) && *h == self@[*key],
                None => !self@.contains_key(*key),
            },
    {
        proof {
            use_type_invariant(self);
        }
        match self.position(key) {
            Some(i) => {
                proof {
                    lemma_mapping_at(self.slots@, i as int);
                }
                Some(&self.slots[i].1)
            },
            None => None,
        }
    }

    /// Whether a hook is registered under `key`.
    pub fn contains(&self, key: &TypeId) -> (present: bool)
        ensures
            present == self@.contains_key(*key),
    {
        self.get(key).is_some()
    }

    /// How many module types are registered.
    pub fn len(&self) -> (count: usize)
        ensures
            self@.dom().finite(),
            count == self@.len(),
    {
        proof {
            use_type_invariant(self);
            lemma_mapping_len(self.slots@);
        }
        self.slots.len()
    }

    /// Whether no module type is registered.
    pub fn is_empty(&self) -> (empty: bool)
        ensures
            empty == (self@ == Map::<TypeId, Hook>::empty()),
    {
        proof {
            if self.slots@.len() > 0 {
                assert(slot_of(self.slots@, self.slots@[0].0, 0));
                assert(self@.contains_key(self.slots@[0].0));
            } else {
                assert(self@ =~= Map::<TypeId, Hook>::empty());
            }
        }
        self.slots.len() == 0
    }

    /// Applies `value` to the hook registered under `key`, if there is one.
    pub fn project<V>(&self, key: &TypeId, value: impl FnOnce(&Hook) -> V) -> (result: Option<V>)
        requires
            self@.contains_key(*key) ==> call_requires(value, (&self@[*key],)),
        ensures
            self@.contains_key(*key) ==> result is Some && call_ensures(
                value,
                (&self@[*key],),
                result->0,
            ),
            !self@.contains_key(*key) ==> result is None,
    {
        match self.get(key) {
            Some(hook) => Some(value(hook)),
            None => None,
        }
    }
}

impl Hooks {
    /// A shared registry that starts out as `modules`.
    pub fn new(modules: Registry) -> (hooks: Self) {
        Hooks { shared: Arc::new(shelf_new(modules)) }
    }

    /// The registry as published at the moment of the call. It is whole, and
    /// stays as it is however often the shared one is replaced afterwards.
    pub fn snapshot(&self) -> (registry: Arc<Registry>) {
        shelf_load(&self.shared)
    }

    /// Looks up the hook of module type `T` in the registry of the moment
    /// and applies `value` to it. `None` means that no such module is
    /// registered there.
    pub fn get<T: 'static, V>(&self, value: impl FnOnce(&Hook) -> V) -> (result: Option<V>)
        requires
            forall|h: &Hook| call_requires(value, (h,)),
        ensures
            result matches Some(v) ==> exists|h: &Hook| call_ensures(value, (h,), v),
    {
        let key = type_id_of::<T>();
        let registry = self.snapshot();
        registry.project(&key, value)
    }

    /// Publishes `modules` in place of the registry published before, in one
    /// step: a reader sees the old one or the new one, whole.
    pub fn reload(&self, modules: Registry) {
        shelf_store(&self.shared, Arc::new(modules))
    }
}

impl Clone for Hooks {
    /// Another handle to the same shared registry.
    fn clone(&self) -> (other: Self)
        ensures
            other == *self,
    {
        Hooks { shared: self.shared.clone() }
    }
}

} // verus!
