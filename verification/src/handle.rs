//! Opaque cache handles and the registry that gives them their meaning.
//!
//! A handle is a token of the size of a pointer with no structure that the
//! host may rely on. The registry keeps the engine behind every handle it has
//! issued. A handle is never issued twice, so a handle that was released
//! stays released and is told apart from a live one.

use vstd::prelude::*;

verus! {

/// The token by which the host names a cache. The token zero names none.
#[allow(non_camel_case_types)]
#[derive(Clone, Copy, Debug, PartialEq, Eq, Structural)]
pub struct cache_t {
    pub id: usize,
}

impl cache_t {
    /// The handle that names no cache.
    pub fn null() -> (handle: cache_t)
        ensures
            handle.id == 0,
    {
        cache_t { id: 0 }
    }

    /// Whether this is the handle that names no cache.
    pub fn is_null(&self) -> (null: bool)
        ensures
            null == (self.id == 0),
    {
        self.id == 0
    }
}

/// Where a handle stands in its life.
#[derive(Clone, Copy, Debug, PartialEq, Eq, Structural)]
pub enum HandleState {
    /// The null handle, or a token that was never issued.
    Absent,
    /// Issued and not released: store and load work on it.
    Live,
    /// Released. This is final.
    Released,
}

/// The state of `handle` in a registry that holds `slots`.
pub open spec fn state_of<T>(slots: Seq<Option<T>>, handle: cache_t) -> HandleState {
    if handle.id == 0 || handle.id > slots.len() {
        HandleState::Absent
    } else if slots[handle.id - 1] is Some {
        HandleState::Live
    } else {
        HandleState::Released
    }
}

/// Whether `handle` names a cache that can be used.
pub open spec fn is_live<T>(slots: Seq<Option<T>>, handle: cache_t) -> bool {
    state_of(slots, handle) is Live
}

/// The engine behind a live handle.
pub open spec fn engine_of<T>(slots: Seq<Option<T>>, handle: cache_t) -> T
    recommends
        is_live(slots, handle),
{
    slots[handle.id - 1]->Some_0
}

/// The handle that the next registration issues.
pub open spec fn next_handle<T>(slots: Seq<Option<T>>) -> cache_t
    recommends
        slots.len() < usize::MAX,
{
    cache_t { id: (slots.len() + 1) as usize }
}

/// The slots after `engine` was registered.
pub open spec fn registered<T>(slots: Seq<Option<T>>, engine: T) -> Seq<Option<T>> {
    slots.push(Some(engine))
}

/// The slots after `handle` was released: the engine behind a live handle is
/// gone, and a handle that is not live changes nothing.
pub open spec fn released<T>(slots: Seq<Option<T>>, handle: cache_t) -> Seq<Option<T>> {
    if is_live(slots, handle) {
        slots.update(handle.id - 1, None)
    } else {
        slots
    }
}

/// The engines of the caches that the host has created and not yet destroyed.
pub struct Registry<T> {
    slots: Vec<Option<T>>,
}

impl<T> View for Registry<T> {
    type V = Seq<Option<T>>;

    /// One slot for every handle issued so far, in the order of issue; the
    /// slot of a released handle is empty.
    closed spec fn view(&self) -> Seq<Option<T>> {
        self.slots@
    }
}

impl<T> Registry<T> {
    /// A registry that has issued no handle.
    pub fn new() -> (registry: Self)
        ensures
            registry@ == Seq::<Option<T>>::empty(),
    {
        Registry { slots: Vec::new() }
    }

    /// Takes `engine` over and issues the handle that names it from now on.
    pub fn register(&mut self, engine: T) -> (handle: cache_t)
        ensures
            final(self)@ == registered(old(self)@, engine),
            handle == next_handle(old(self)@),
            handle.id == old(self)@.len() + 1,
    {
        self.slots.push(Some(engine));
        cache_t { id: self.slots.len() }
    }

    /// Where `handle` stands in its life.
    pub fn state(&self, handle: cache_t) -> (state: HandleState)
        ensures
            state == state_of(self@, handle),
    {
        if handle.id == 0 || handle.id > self.slots.len() {
            HandleState::Absent
        } else if self.slots[handle.id - 1].is_some() {
            HandleState::Live
        } else {
            HandleState::Released
        }
    }

    /// The engine behind `handle`, if the handle is live.
    pub fn lookup(&self, handle: cache_t) -> (engine: Option<&T>)
        ensures
            engine is Some <==> is_live(self@, handle),
            engine matches Some(found) ==> *found == engine_of(self@, handle),
    {
        if handle.id == 0 || handle.id > self.slots.len() {
            None
        } else {
            self.slots[handle.id - 1].as_ref()
        }
    }

    /// Releases `handle`: the engine behind a live handle is dropped. The null
    /// handle, a handle never issued and a handle already released change
    /// nothing.
    pub fn retire(&mut self, handle: cache_t)
        ensures
            final(self)@ == released(old(self)@, handle),
    {
        if handle.id != 0 && handle.id <= self.slots.len() {
            let slot: usize = handle.id - 1;
            if self.slots[slot].is_some() {
                self.slots.set(slot, None);
            }
        }
    }
}

/// Registration issues a handle that named nothing before and is live after,
/// and leaves every other handle as it was.
pub proof fn lemma_register_issues_fresh_handle<T>(slots: Seq<Option<T>>, engine: T, other: cache_t)
    requires
        slots.len() < usize::MAX,
    ensures
        state_of(slots, next_handle(slots)) == HandleState::Absent,
        state_of(registered(slots, engine), next_handle(slots)) == HandleState::Live,
        engine_of(registered(slots, engine), next_handle(slots)) == engine,
        other != next_handle(slots) ==> state_of(registered(slots, engine), other) == state_of(
            slots,
            other,
        ),
        is_live(slots, other) ==> engine_of(registered(slots, engine), other) == engine_of(
            slots,
            other,
        ),
{
}

/// Release takes a live handle to the released state and leaves every other
/// handle, and the engine behind it, as it was.
pub proof fn lemma_release_retires_one_handle<T>(
    slots: Seq<Option<T>>,
    handle: cache_t,
    other: cache_t,
)
    ensures
        is_live(slots, handle) ==> state_of(released(slots, handle), handle)
            == HandleState::Released,
        !is_live(slots, handle) ==> released(slots, handle) == slots,
        other != handle ==> state_of(released(slots, handle), other) == state_of(slots, other),
        other != handle && is_live(slots, other) ==> engine_of(released(slots, handle), other)
            == engine_of(slots, other),
{
}

/// The released state is final: neither a registration nor the release of any
/// handle, this one included, brings a released handle back.
pub proof fn lemma_released_is_final<T>(
    slots: Seq<Option<T>>,
    handle: cache_t,
    engine: T,
    other: cache_t,
)
    requires
        state_of(slots, handle) == HandleState::Released,
    ensures
        state_of(registered(slots, engine), handle) == HandleState::Released,
        state_of(released(slots, other), handle) == HandleState::Released,
{
}

/// A cache that is created and released at once leaves nothing behind: the
/// registry holds the engines it held before and no other, every handle that
/// was live is live with the same engine, and the new handle is released.
pub proof fn lemma_register_then_release<T>(slots: Seq<Option<T>>, engine: T, other: cache_t)
    requires
        slots.len() < usize::MAX,
    ensures
        released(registered(slots, engine), next_handle(slots)) == slots.push(None),
        state_of(released(registered(slots, engine), next_handle(slots)), next_handle(slots))
            == HandleState::Released,
        is_live(released(registered(slots, engine), next_handle(slots)), other) == is_live(
            slots,
            other,
        ),
        is_live(slots, other) ==> engine_of(
            released(registered(slots, engine), next_handle(slots)),
            other,
        ) == engine_of(slots, other),
{
    let after = released(registered(slots, engine), next_handle(slots));
    assert(after =~= slots.push(None));
}

} // verus!
