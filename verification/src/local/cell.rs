//! One-shot cells that hand out the owning handle of a local storage value:
//! a `LocalCell` is filled once at run time, a `ConstLocalCell` holds its
//! value from the start and is taken once.
use crate::local::list::{LocalHandle, StorageListNode, TypeKey};
use vstd::prelude::*;

verus! {

/// A cell filled once, under the type key `key`.
pub struct LocalCell {
    key: TypeKey,
    used: bool,
}

impl LocalCell {
    pub closed spec fn spec_key(&self) -> TypeKey {
        self.key
    }

    /// Whether the cell has been filled.
    pub closed spec fn spec_used(&self) -> bool {
        self.used
    }

    pub fn new(key: TypeKey) -> (r: LocalCell)
        ensures
            r.spec_key() == key,
            !r.spec_used(),
    {
        LocalCell { key, used: false }
    }

    /// Fill the cell with `val` and hand out its handle. Filling a cell twice
    /// is a fault, which `requires` leaves out.
    pub fn init<V>(&mut self, val: V) -> (r: LocalHandle<V>)
        requires
            !old(self).spec_used(),
        ensures
            final(self).spec_used(),
            final(self).spec_key() == old(self).spec_key(),
            r.spec_key() == old(self).spec_key(),
            r.spec_value() == val,
    {
        self.used = true;
        LocalHandle::from_node(StorageListNode::new(self.key, val))
    }

    /// Fill the cell with the value `init` produces. Filling a cell twice is a
    /// fault, which `requires` leaves out.
    pub fn init_with<V, F: FnOnce() -> V>(&mut self, init: F) -> (r: LocalHandle<V>)
        requires
            !old(self).spec_used(),
            init.requires(()),
        ensures
            final(self).spec_used(),
            final(self).spec_key() == old(self).spec_key(),
            r.spec_key() == old(self).spec_key(),
            init.ensures((), r.spec_value()),
    {
        let val = init();
        self.init(val)
    }

    /// Fill the cell with `val` unless it is already filled.
    pub fn try_init<V>(&mut self, val: V) -> (r: Option<LocalHandle<V>>)
        ensures
            final(self).spec_used(),
            final(self).spec_key() == old(self).spec_key(),
            old(self).spec_used() ==> r is None,
            !old(self).spec_used() ==> (r matches Some(h) && h.spec_key() == old(self).spec_key() && h.spec_value() == val),
    {
        if self.used {
            None
        } else {
            Some(self.init(val))
        }
    }

    /// Fill the cell with the value `init` produces unless it is already
    /// filled, in which case `init` does not run.
    pub fn try_init_with<V, F: FnOnce() -> V>(&mut self, init: F) -> (r: Option<LocalHandle<V>>)
        requires
            !old(self).spec_used() ==> init.requires(()),
        ensures
            final(self).spec_used(),
            final(self).spec_key() == old(self).spec_key(),
            old(self).spec_used() ==> r is None,
            !old(self).spec_used() ==> (r matches Some(h) && h.spec_key() == old(self).spec_key() && init.ensures((), h.spec_value())),
    {
        if self.used {
            None
        } else {
            Some(self.init_with(init))
        }
    }
}

/// A cell holding its value from the start, taken once.
pub struct ConstLocalCell<V> {
    key: TypeKey,
    data: Option<V>,
}

impl<V> ConstLocalCell<V> {
    pub closed spec fn spec_key(&self) -> TypeKey {
        self.key
    }

    /// The value, until the cell is taken.
    pub closed spec fn spec_data(&self) -> Option<V> {
        self.data
    }

    pub fn new(key: TypeKey, data: V) -> (r: ConstLocalCell<V>)
        ensures
            r.spec_key() == key,
            r.spec_data() == Some(data),
    {
        ConstLocalCell { key, data: Some(data) }
    }

    /// Take the value's handle. Taking a cell twice is a fault, which
    /// `requires` leaves out.
    pub fn take(&mut self) -> (r: LocalHandle<V>)
        requires
            old(self).spec_data() is Some,
        ensures
            final(self).spec_data() is None,
            final(self).spec_key() == old(self).spec_key(),
            r.spec_key() == old(self).spec_key(),
            Some(r.spec_value()) == old(self).spec_data(),
    {
        let v = self.data.take().unwrap();
        LocalHandle::from_node(StorageListNode::new(self.key, v))
    }

    /// Take the value's handle unless the cell is already taken.
    pub fn try_take(&mut self) -> (r: Option<LocalHandle<V>>)
        ensures
            final(self).spec_data() is None,
            final(self).spec_key() == old(self).spec_key(),
            old(self).spec_data() is None ==> r is None,
            old(self).spec_data() matches Some(v) ==> (r matches Some(h) && h.spec_key() == old(self).spec_key()
                && h.spec_value() == v),
    {
        match self.data.take() {
            Some(v) => Some(LocalHandle::from_node(StorageListNode::new(self.key, v))),
            None => None,
        }
    }
}

} // verus!
