//! Publishing a set of values into a storage list, with checks that the slots
//! to fill are free and the prerequisites present.
use crate::local::list::{has_key, value_of, StorageListHead, TypeKey};
use vstd::prelude::*;

verus! {

#[derive(Debug, Clone, Copy, PartialEq, Eq, Structural)]
pub enum PublishError {
    /// A value is already filed under this key.
    AlreadyPublished(TypeKey),
    /// No value is filed under this key, which is required.
    MissingPrerequisite(TypeKey),
}

/// A source of values to publish into a storage list.
pub trait Publish<V> {
    /// What publishing from this source does: from the list `before` it
    /// leaves the list `after` and answers `r`.
    spec fn publishes(&self, before: &StorageListHead<V>, after: &StorageListHead<V>, r: Result<(), PublishError>) -> bool;

    /// File this source's values through `ctx`, a context over the list
    /// published into.
    fn try_publish_to(&self, ctx: &mut PublishCtx<V>) -> (r: Result<(), PublishError>)
        requires
            old(ctx).wf(),
        ensures
            final(ctx).wf(),
            forall|k: TypeKey| #[trigger] has_key(old(ctx).spec_nodes(), k) ==> has_key(final(ctx).spec_nodes(), k),
            self.publishes(&old(ctx).spec_head(), &final(ctx).spec_head(), r),
    ;
}

/// The view of a storage list offered to a publishing source.
pub struct PublishCtx<V> {
    pub(crate) head: StorageListHead<V>,
}

impl<V> PublishCtx<V> {
    pub closed spec fn wf(&self) -> bool {
        self.head.wf()
    }

    pub(crate) proof fn lemma_wf_head(&self)
        ensures
            self.wf() == self.head.wf(),
            self.spec_nodes() == self.head@,
            self.spec_head() == self.head,
    {
    }

    /// The list published into.
    pub closed spec fn spec_head(&self) -> StorageListHead<V> {
        self.head
    }

    /// The nodes of the list published into.
    pub closed spec fn spec_nodes(&self) -> Seq<crate::local::list::StorageListNode<V>> {
        self.head@
    }

    pub(crate) fn new(head: StorageListHead<V>) -> (r: PublishCtx<V>)
        ensures
            r.head == head,
            r.wf() == head.wf(),
    {
        PublishCtx { head }
    }

    pub fn contains(&self, key: TypeKey) -> (r: bool)
        requires
            self.wf(),
        ensures
            r == has_key(self.spec_nodes(), key),
    {
        self.head.contains(key)
    }

    pub fn get(&self, key: TypeKey) -> (r: Option<V>)
        where
            V: Copy,
        requires
            self.wf(),
        ensures
            r == value_of(self.spec_nodes(), key),
    {
        self.head.get(key)
    }

    pub fn as_ptr(&self, key: TypeKey) -> (r: Option<&V>)
        requires
            self.wf(),
        ensures
            r matches Some(v) ==> value_of(self.spec_nodes(), key) == Some(*v),
            r is None <==> !has_key(self.spec_nodes(), key),
    {
        self.head.as_ptr(key)
    }

    /// Run `f` on the value filed under `key`, if any.
    pub fn with<R, F: FnOnce(&V) -> R>(&mut self, key: TypeKey, f: F) -> (r: Option<R>)
        requires
            old(self).wf(),
            value_of(old(self).spec_nodes(), key) matches Some(v) ==> f.requires((&v,)),
        ensures
            final(self).wf(),
            !has_key(old(self).spec_nodes(), key) ==> r is None,
            has_key(old(self).spec_nodes(), key) ==> (r matches Some(res) && f.ensures((&value_of(old(self).spec_nodes(), key)->0,), res)),
            forall|k: TypeKey| value_of(final(self).spec_nodes(), k) == value_of(old(self).spec_nodes(), k),
            forall|k: TypeKey| has_key(final(self).spec_nodes(), k) <==> has_key(old(self).spec_nodes(), k),
    {
        self.head.with(key, f)
    }

    /// `Ok` if nothing is filed under `key`, else `Err(AlreadyPublished)`.
    pub fn check_slot(&self, key: TypeKey) -> (r: Result<(), PublishError>)
        requires
            self.wf(),
        ensures
            has_key(self.spec_nodes(), key) ==> r == Err::<(), PublishError>(PublishError::AlreadyPublished(key)),
            !has_key(self.spec_nodes(), key) ==> r is Ok,
    {
        if self.head.contains(key) {
            Err(PublishError::AlreadyPublished(key))
        } else {
            Ok(())
        }
    }

    /// `Ok` if a value is filed under `key`, else `Err(MissingPrerequisite)`.
    pub fn require(&self, key: TypeKey) -> (r: Result<(), PublishError>)
        requires
            self.wf(),
        ensures
            has_key(self.spec_nodes(), key) ==> r is Ok,
            !has_key(self.spec_nodes(), key) ==> r == Err::<(), PublishError>(PublishError::MissingPrerequisite(key)),
    {
        if self.head.contains(key) {
            Ok(())
        } else {
            Err(PublishError::MissingPrerequisite(key))
        }
    }

    /// File the value that `make` produces under `key`, after checking the
    /// slot is free; `make` does not run when it is not, and the list is left
    /// as it was.
    pub fn put_init<F: FnOnce(&PublishCtx<V>) -> V>(&mut self, key: TypeKey, make: F) -> (r: Result<(), PublishError>)
        requires
            old(self).wf(),
            make.requires((&*old(self),)),
        ensures
            final(self).wf(),
            has_key(old(self).spec_nodes(), key) ==> r == Err::<(), PublishError>(PublishError::AlreadyPublished(key))
                && final(self).spec_nodes() == old(self).spec_nodes(),
            !has_key(old(self).spec_nodes(), key) ==> r is Ok && has_key(final(self).spec_nodes(), key)
                && make.ensures((&*old(self),), value_of(final(self).spec_nodes(), key)->0)
                && (forall|k: TypeKey| k != key ==> value_of(final(self).spec_nodes(), k) == value_of(old(self).spec_nodes(), k)),
            forall|k: TypeKey| has_key(old(self).spec_nodes(), k) ==> has_key(final(self).spec_nodes(), k),
    {
        match self.check_slot(key) {
            Err(e) => return Err(e),
            Ok(()) => {},
        }
        let val = make(&*self);
        self.head.put_init(key, val);
        Ok(())
    }

    /// Overwrite the value filed under `key`; `Err(MissingPrerequisite)` if
    /// there is none.
    pub fn set(&mut self, key: TypeKey, val: V) -> (r: Result<(), PublishError>)
        requires
            old(self).wf(),
        ensures
            final(self).wf(),
            forall|k: TypeKey| has_key(final(self).spec_nodes(), k) <==> has_key(old(self).spec_nodes(), k),
            !has_key(old(self).spec_nodes(), key) ==> r == Err::<(), PublishError>(PublishError::MissingPrerequisite(key))
                && final(self).spec_nodes() == old(self).spec_nodes(),
            has_key(old(self).spec_nodes(), key) ==> r is Ok && value_of(final(self).spec_nodes(), key) == Some(val),
    {
        match self.head.set(key, val) {
            Ok(()) => Ok(()),
            Err(_dropped) => Err(PublishError::MissingPrerequisite(key)),
        }
    }

    /// Overwrite the value filed under `key` and return the previous one;
    /// `Err(MissingPrerequisite)` if there is none.
    pub fn replace(&mut self, key: TypeKey, val: V) -> (r: Result<V, PublishError>)
        requires
            old(self).wf(),
        ensures
            final(self).wf(),
            forall|k: TypeKey| has_key(final(self).spec_nodes(), k) <==> has_key(old(self).spec_nodes(), k),
            !has_key(old(self).spec_nodes(), key) ==> r == Err::<V, PublishError>(PublishError::MissingPrerequisite(key))
                && final(self).spec_nodes() == old(self).spec_nodes(),
            has_key(old(self).spec_nodes(), key) ==> (r matches Ok(p) && Some(p) == value_of(old(self).spec_nodes(), key)
                && value_of(final(self).spec_nodes(), key) == Some(val)),
    {
        match self.head.replace(key, val) {
            Ok(prev) => Ok(prev),
            Err(_dropped) => Err(PublishError::MissingPrerequisite(key)),
        }
    }

    /// Run `f` with exclusive access to the value filed under `key`;
    /// `Err(MissingPrerequisite)` if there is none. The value is left as `f`
    /// left it.
    pub fn with_mut<R, F: FnOnce(&mut V) -> R>(&mut self, key: TypeKey, f: F) -> (r: Result<R, PublishError>)
        requires
            old(self).wf(),
            forall|v: &mut V| f.requires((v,)),
        ensures
            final(self).wf(),
            !has_key(old(self).spec_nodes(), key) ==> r == Err::<R, PublishError>(PublishError::MissingPrerequisite(key))
                && final(self).spec_nodes() == old(self).spec_nodes(),
            has_key(old(self).spec_nodes(), key) ==> (r matches Ok(res) && exists|w: &mut V| *w == value_of(old(self).spec_nodes(), key)->0
                && value_of(final(self).spec_nodes(), key) == Some(*final(w)) && f.ensures((w,), res)),
            forall|k: TypeKey| k != key ==> value_of(final(self).spec_nodes(), k) == value_of(old(self).spec_nodes(), k),
            forall|k: TypeKey| has_key(final(self).spec_nodes(), k) <==> has_key(old(self).spec_nodes(), k),
    {
        match self.head.with_mut(key, f) {
            Some(res) => Ok(res),
            None => Err(PublishError::MissingPrerequisite(key)),
        }
    }
}

} // verus!
