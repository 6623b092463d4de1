use vstd::prelude::*;
use core::any::{Any, TypeId};
use std::collections::HashMap;
use crate::window::WindowEvents;
use crate::window::WindowEvent;

verus! {

#[verifier::external_type_specification]
#[verifier::external_body]
pub struct ExTypeId(TypeId);

/// Relies on `TypeId::of`: the identity token of a type, as std computes it.
pub assume_specification<T: ?Sized + 'static>[ TypeId::of::<T> ]() -> TypeId;

/// The type tokens under which `r` holds a value.
pub uninterp spec fn stored_keys(r: Resources) -> Set<TypeId>;

/// The event queue of each stored value that is a `WindowEvents`, by key.
pub uninterp spec fn window_queues(r: Resources) -> Map<TypeId, Seq<WindowEvent>>;

/// A store of single values keyed by their type's identity token. Each token
/// holds at most one value; the value is kept type-erased and handed back
/// only as the type it was stored under.
#[verifier::external_body]
pub struct Resources {
    map: HashMap<TypeId, Box<dyn Any>>,
}

impl Resources {
    /// Relies on `HashMap::new`: the map starts empty.
    #[verifier::external_body]
    pub(crate) fn new() -> (r: Resources)
        ensures
            stored_keys(r) == Set::<TypeId>::empty(),
            window_queues(r).dom() == Set::<TypeId>::empty(),
    {
        Resources { map: HashMap::new() }
    }

    /// Relies on `HashMap::insert`: the value under `key` is replaced, other keys keep theirs.
    #[verifier::external_body]
    pub(crate) fn insert<T: Send + Sync + 'static>(&mut self, key: TypeId, value: T)
        ensures
            stored_keys(*final(self)) == stored_keys(*old(self)).insert(key),
            window_queues(*final(self)).remove(key) == window_queues(*old(self)).remove(key),
    {
        self.map.insert(key, Box::new(value));
    }

    /// Relies on `HashMap::insert`, as `insert`; the value stored is known to be
    /// a `WindowEvents`, so its queue is known too.
    #[verifier::external_body]
    pub(crate) fn insert_window_events(&mut self, key: TypeId, value: WindowEvents)
        ensures
            stored_keys(*final(self)) == stored_keys(*old(self)).insert(key),
            window_queues(*final(self)) == window_queues(*old(self)).insert(key, value.queue@),
    {
        self.map.insert(key, Box::new(value));
    }

    /// Relies on `HashMap::get`: nothing is found under a key that holds no value.
    /// Relies on `downcast_ref`: the stored value comes back only when it has type `T`.
    #[verifier::external_body]
    pub(crate) fn get<T: Send + Sync + 'static>(&self, key: &TypeId) -> (r: Option<&T>)
        ensures
            !stored_keys(*self).contains(*key) ==> r is None,
    {
        match self.map.get(key) {
            Some(b) => b.downcast_ref::<T>(),
            None => None,
        }
    }

    /// Relies on `HashMap::get_mut` and `downcast_mut`: as `get`; the set of keys is left as it was.
    #[verifier::external_body]
    pub(crate) fn get_mut<T: Send + Sync + 'static>(&mut self, key: &TypeId) -> (r: Option<&mut T>)
        ensures
            !stored_keys(*old(self)).contains(*key) ==> r is None,
            stored_keys(*final(self)) == stored_keys(*old(self)),
            window_queues(*final(self)).remove(*key) == window_queues(*old(self)).remove(*key),
    {
        match self.map.get_mut(key) {
            Some(b) => b.downcast_mut::<T>(),
            None => None,
        }
    }

    /// Relies on `HashMap::get_mut` and `downcast_mut`, as `get_mut` with
    /// `T = WindowEvents`: found exactly when the value under `key` is a
    /// `WindowEvents`, and what is written through it becomes that queue.
    #[verifier::external_body]
    pub(crate) fn window_events_mut(&mut self, key: &TypeId) -> (r: Option<&mut WindowEvents>)
        ensures
            r is Some <==> window_queues(*old(self)).contains_key(*key),
            stored_keys(*final(self)) == stored_keys(*old(self)),
            r is None ==> window_queues(*final(self)) == window_queues(*old(self)),
            r is Some ==> r.unwrap().queue@ == window_queues(*old(self))[*key],
            r is Some ==> window_queues(*final(self)) == window_queues(*old(self)).insert(
                *key,
                final(r.unwrap()).queue@,
            ),
    {
        match self.map.get_mut(key) {
            Some(b) => b.downcast_mut::<WindowEvents>(),
            None => None,
        }
    }
}

} // verus!
