//! The local storage slot of one owner (a thread or an interrupt): the list
//! of values it owns, reached through the owner rather than through the list.
use crate::local::cell::ConstLocalCell;
use crate::local::list::{
    has_key, value_of, LocalHandle, LocalRef, LocalRefMut, StorageListHead, StorageListNode,
    TypeKey,
};
use crate::local::publish::{Publish, PublishError};
use vstd::prelude::*;

verus! {

/// An owner's local storage.
pub struct LocalStorage<V> {
    head: StorageListHead<V>,
}

impl<V> LocalStorage<V> {
    /// The owned list.
    pub closed spec fn spec_list(&self) -> StorageListHead<V> {
        self.head
    }
}

impl<V> View for LocalStorage<V> {
    type V = Seq<StorageListNode<V>>;

    /// The nodes of the owned list, newest first.
    closed spec fn view(&self) -> Seq<StorageListNode<V>> {
        self.head@
    }
}

impl<V> LocalStorage<V> {
    /// The owned list keeps its keys unique.
    pub closed spec fn wf(&self) -> bool {
        self.head.wf()
    }

    pub fn new() -> (r: LocalStorage<V>)
        ensures
            r.wf(),
            r@ == Seq::<StorageListNode<V>>::empty(),
    {
        LocalStorage { head: StorageListHead::new() }
    }

    /// The list this owner uses.
    pub fn head(&self) -> (r: &StorageListHead<V>)
        requires
            self.wf(),
        ensures
            r.wf(),
            r@ == self@,
    {
        &self.head
    }

    pub fn contains(&self, key: TypeKey) -> (r: bool)
        requires
            self.wf(),
        ensures
            r == has_key(self@, key),
    {
        self.head.contains(key)
    }

    pub fn as_ptr(&self, key: TypeKey) -> (r: Option<&V>)
        requires
            self.wf(),
        ensures
            r matches Some(v) ==> value_of(self@, key) == Some(*v),
            r is None <==> !has_key(self@, key),
    {
        self.head.as_ptr(key)
    }

    pub fn get(&self, key: TypeKey) -> (r: Option<V>)
        where
            V: Copy,
        requires
            self.wf(),
        ensures
            r == value_of(self@, key),
    {
        self.head.get(key)
    }

    pub fn set(&mut self, key: TypeKey, val: V) -> (r: Result<(), V>)
        requires
            old(self).wf(),
        ensures
            final(self).wf(),
            !has_key(old(self)@, key) ==> r == Err::<(), V>(val) && final(self)@ == old(self)@,
            has_key(old(self)@, key) ==> r is Ok && value_of(final(self)@, key) == Some(val),
            forall|k: TypeKey| k != key ==> value_of(final(self)@, k) == value_of(old(self)@, k),
            forall|k: TypeKey| has_key(final(self)@, k) <==> has_key(old(self)@, k),
    {
        self.head.set(key, val)
    }

    pub fn replace(&mut self, key: TypeKey, val: V) -> (r: Result<V, V>)
        requires
            old(self).wf(),
        ensures
            final(self).wf(),
            !has_key(old(self)@, key) ==> r == Err::<V, V>(val) && final(self)@ == old(self)@,
            has_key(old(self)@, key) ==> r == Ok::<V, V>(value_of(old(self)@, key)->0)
                && value_of(final(self)@, key) == Some(val),
            forall|k: TypeKey| k != key ==> value_of(final(self)@, k) == value_of(old(self)@, k),
            forall|k: TypeKey| has_key(final(self)@, k) <==> has_key(old(self)@, k),
    {
        self.head.replace(key, val)
    }

    pub fn with<R, F: FnOnce(&V) -> R>(&mut self, key: TypeKey, f: F) -> (r: Option<R>)
        requires
            old(self).wf(),
            value_of(old(self)@, key) matches Some(v) ==> f.requires((&v,)),
        ensures
            final(self).wf(),
            !has_key(old(self)@, key) ==> r is None && final(self)@ == old(self)@,
            has_key(old(self)@, key) ==> (r matches Some(res) && f.ensures((&value_of(old(self)@, key)->0,), res)),
            forall|k: TypeKey| value_of(final(self)@, k) == value_of(old(self)@, k),
            forall|k: TypeKey| has_key(final(self)@, k) <==> has_key(old(self)@, k),
    {
        self.head.with(key, f)
    }

    pub fn with_mut<R, F: FnOnce(&mut V) -> R>(&mut self, key: TypeKey, f: F) -> (r: Option<R>)
        requires
            old(self).wf(),
            forall|v: &mut V| f.requires((v,)),
        ensures
            final(self).wf(),
            !has_key(old(self)@, key) ==> r is None && final(self)@ == old(self)@,
            has_key(old(self)@, key) ==> (r matches Some(res) && exists|w: &mut V| *w == value_of(old(self)@, key)->0
                && value_of(final(self)@, key) == Some(*final(w)) && f.ensures((w,), res)),
            has_key(old(self)@, key) ==> has_key(final(self)@, key),
            forall|k: TypeKey| k != key ==> value_of(final(self)@, k) == value_of(old(self)@, k),
            forall|k: TypeKey| has_key(final(self)@, k) <==> has_key(old(self)@, k),
    {
        self.head.with_mut(key, f)
    }

    /// Link a handle's value into this storage; a key already present is a
    /// fault, which `requires` leaves out.
    pub fn put(&mut self, handle: LocalHandle<V>)
        requires
            old(self).wf(),
            !has_key(old(self)@, handle.spec_key()),
        ensures
            final(self).wf(),
            value_of(final(self)@, handle.spec_key()) == Some(handle.spec_value()),
            forall|k: TypeKey| k != handle.spec_key() ==> value_of(final(self)@, k) == value_of(old(self)@, k),
            forall|k: TypeKey| has_key(final(self)@, k) <==> (k == handle.spec_key() || has_key(old(self)@, k)),
    {
        self.head.put(handle)
    }

    pub fn remove(&mut self, key: TypeKey) -> (r: Option<LocalHandle<V>>)
        requires
            old(self).wf(),
        ensures
            final(self).wf(),
            !has_key(old(self)@, key) ==> r is None && final(self)@ == old(self)@,
            has_key(old(self)@, key) ==> (r matches Some(h) && h.spec_key() == key && Some(h.spec_value())
                == value_of(old(self)@, key)),
            !has_key(final(self)@, key),
            forall|k: TypeKey| k != key ==> value_of(final(self)@, k) == value_of(old(self)@, k),
    {
        self.head.remove(key)
    }

    /// Take a `ConstLocalCell` and link its value in one step. Taking a cell
    /// already taken, or linking a key already present, is a fault, which
    /// `requires` leaves out.
    pub fn put_take(&mut self, cell: &mut ConstLocalCell<V>)
        requires
            old(self).wf(),
            old(cell).spec_data() is Some,
            !has_key(old(self)@, old(cell).spec_key()),
        ensures
            final(self).wf(),
            final(cell).spec_data() is None,
            value_of(final(self)@, old(cell).spec_key()) == old(cell).spec_data(),
            forall|k: TypeKey| k != old(cell).spec_key() ==> value_of(final(self)@, k) == value_of(old(self)@, k),
    {
        let handle = cell.take();
        self.head.put(handle)
    }

    pub fn put_init(&mut self, key: TypeKey, val: V)
        requires
            old(self).wf(),
            !has_key(old(self)@, key),
        ensures
            final(self).wf(),
            value_of(final(self)@, key) == Some(val),
            forall|k: TypeKey| k != key ==> value_of(final(self)@, k) == value_of(old(self)@, k),
            forall|k: TypeKey| has_key(final(self)@, k) <==> (k == key || has_key(old(self)@, k)),
    {
        self.head.put_init(key, val)
    }

    pub fn put_init_with<F: FnOnce() -> V>(&mut self, key: TypeKey, init: F)
        requires
            old(self).wf(),
            !has_key(old(self)@, key),
            init.requires(()),
        ensures
            final(self).wf(),
            value_of(final(self)@, key) matches Some(v) && init.ensures((), v),
            forall|k: TypeKey| k != key ==> value_of(final(self)@, k) == value_of(old(self)@, k),
            forall|k: TypeKey| has_key(final(self)@, k) <==> (k == key || has_key(old(self)@, k)),
    {
        self.head.put_init_with(key, init)
    }

    pub fn borrow(&mut self, key: TypeKey) -> (r: Option<LocalRef<V>>)
        requires
            old(self).wf(),
        ensures
            final(self).wf(),
            !has_key(old(self)@, key) ==> r is None && final(self)@ == old(self)@,
            has_key(old(self)@, key) ==> (r matches Some(g) && g.spec_node().key == key
                && Some(g.spec_node().value) == value_of(old(self)@, key)),
            !has_key(final(self)@, key),
            forall|k: TypeKey| k != key ==> value_of(final(self)@, k) == value_of(old(self)@, k),
            forall|k: TypeKey| k != key ==> (has_key(final(self)@, k) <==> has_key(old(self)@, k)),
    {
        self.head.borrow(key)
    }

    pub fn borrow_mut(&mut self, key: TypeKey) -> (r: Option<LocalRefMut<V>>)
        requires
            old(self).wf(),
        ensures
            final(self).wf(),
            !has_key(old(self)@, key) ==> r is None && final(self)@ == old(self)@,
            has_key(old(self)@, key) ==> (r matches Some(g) && g.spec_node().key == key
                && Some(g.spec_node().value) == value_of(old(self)@, key)),
            !has_key(final(self)@, key),
            forall|k: TypeKey| k != key ==> value_of(final(self)@, k) == value_of(old(self)@, k),
            forall|k: TypeKey| k != key ==> (has_key(final(self)@, k) <==> has_key(old(self)@, k)),
    {
        self.head.borrow_mut(key)
    }

    pub fn release_ref(&mut self, guard: LocalRef<V>)
        requires
            old(self).wf(),
            !has_key(old(self)@, guard.spec_node().key),
        ensures
            final(self).wf(),
            final(self)@ == seq![guard.spec_node()] + old(self)@,
    {
        self.head.release_ref(guard)
    }

    pub fn release_ref_mut(&mut self, guard: LocalRefMut<V>)
        requires
            old(self).wf(),
            !has_key(old(self)@, guard.spec_node().key),
        ensures
            final(self).wf(),
            final(self)@ == seq![guard.spec_node()] + old(self)@,
    {
        self.head.release_ref_mut(guard)
    }

    /// Publish `src` into this storage: it runs with a context over the
    /// storage's list and may file values, failing with the first error it
    /// meets.
    pub fn try_publish<P: Publish<V>>(&mut self, src: &P) -> (r: Result<(), PublishError>)
        requires
            old(self).wf(),
        ensures
            final(self).wf(),
            forall|k: TypeKey| #[trigger] has_key(old(self)@, k) ==> has_key(final(self)@, k),
            src.publishes(&old(self).spec_list(), &final(self).spec_list(), r),
    {
        self.head.try_publish(src)
    }

    /// Publish `src` into this storage, for a source that cannot fail from
    /// this storage's list: a failure is a fault, which `requires` leaves out.
    pub fn publish<P: Publish<V>>(&mut self, src: &P)
        requires
            old(self).wf(),
            forall|after: StorageListHead<V>, r: Result<(), PublishError>|
                #[trigger] src.publishes(&old(self).spec_list(), &after, r) ==> r is Ok,
        ensures
            final(self).wf(),
            forall|k: TypeKey| #[trigger] has_key(old(self)@, k) ==> has_key(final(self)@, k),
            src.publishes(&old(self).spec_list(), &final(self).spec_list(), Ok::<(), PublishError>(())),
    {
        self.head.publish(src)
    }
}

} // verus!
