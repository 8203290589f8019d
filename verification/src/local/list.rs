//! The storage list: nodes filed by key, newest first, at most one per key.
//! Access by closure or by borrow guard unlinks the node for the duration,
//! so nested access to the same key finds nothing; the node is relinked at
//! the front afterwards.
use crate::local::publish::{Publish, PublishCtx, PublishError};
use vstd::prelude::*;

verus! {

/// The key under which a value is filed (one per stored type).
pub type TypeKey = u64;

pub struct StorageListNode<V> {
    pub key: TypeKey,
    pub value: V,
}

impl<V> StorageListNode<V> {
    pub fn new(key: TypeKey, value: V) -> (r: StorageListNode<V>)
        ensures
            r.key == key,
            r.value == value,
    {
        StorageListNode { key, value }
    }
}

/// The position of the node filed under `key`, if any.
pub open spec fn key_index<V>(s: Seq<StorageListNode<V>>, key: TypeKey) -> Option<int> {
    if exists|i: int| 0 <= i < s.len() && #[trigger] s[i].key == key {
        Some(choose|i: int| 0 <= i < s.len() && #[trigger] s[i].key == key)
    } else {
        None
    }
}

/// Whether a node is filed under `key`.
pub open spec fn has_key<V>(s: Seq<StorageListNode<V>>, key: TypeKey) -> bool {
    exists|i: int| 0 <= i < s.len() && #[trigger] s[i].key == key
}

/// No two nodes share a key.
pub open spec fn keys_unique<V>(s: Seq<StorageListNode<V>>) -> bool {
    forall|i: int, j: int| 0 <= i < s.len() && 0 <= j < s.len() && i != j ==> s[i].key != s[j].key
}

/// The value filed under `key`, if any.
pub open spec fn value_of<V>(s: Seq<StorageListNode<V>>, key: TypeKey) -> Option<V> {
    match key_index(s, key) {
        Some(i) => Some(s[i].value),
        None => None,
    }
}

/// The keys filed, as a set.
pub open spec fn key_set<V>(s: Seq<StorageListNode<V>>) -> Set<TypeKey> {
    Set::new(|k: TypeKey| has_key(s, k))
}

proof fn lemma_key_index_unique<V>(s: Seq<StorageListNode<V>>, i: int)
    requires
        keys_unique(s),
        0 <= i < s.len(),
    ensures
        key_index(s, s[i].key) == Some(i),
{
}

proof fn lemma_push_front<V>(s: Seq<StorageListNode<V>>, n: StorageListNode<V>)
    requires
        keys_unique(s),
        !has_key(s, n.key),
    ensures
        keys_unique(seq![n] + s),
        forall|k: TypeKey| has_key(seq![n] + s, k) <==> (k == n.key || has_key(s, k)),
        value_of(seq![n] + s, n.key) == Some(n.value),
        forall|k: TypeKey| k != n.key ==> value_of(seq![n] + s, k) == value_of(s, k),
{
    let r = seq![n] + s;
    assert forall|k: TypeKey| has_key(r, k) <==> (k == n.key || has_key(s, k)) by {
        if has_key(r, k) {
            let i = choose|i: int| 0 <= i < r.len() && #[trigger] r[i].key == k;
            if i > 0 {
                assert(s[i - 1].key == k);
            }
        }
        if has_key(s, k) {
            let i = choose|i: int| 0 <= i < s.len() && #[trigger] s[i].key == k;
            assert(r[i + 1].key == k);
        }
        if k == n.key {
            assert(r[0].key == k);
        }
    }
    lemma_key_index_unique(r, 0);
    assert forall|k: TypeKey| k != n.key implies value_of(r, k) == value_of(s, k) by {
        if has_key(s, k) {
            let i = choose|i: int| 0 <= i < s.len() && #[trigger] s[i].key == k;
            lemma_key_index_unique(s, i);
            assert(r[i + 1] == s[i]);
            lemma_key_index_unique(r, i + 1);
        } else {
            assert(!has_key(r, k));
        }
    }
}

proof fn lemma_remove_at<V>(s: Seq<StorageListNode<V>>, i: int)
    requires
        keys_unique(s),
        0 <= i < s.len(),
    ensures
        keys_unique(s.remove(i)),
        forall|k: TypeKey| has_key(s.remove(i), k) <==> (k != s[i].key && has_key(s, k)),
        forall|k: TypeKey| k != s[i].key ==> value_of(s.remove(i), k) == value_of(s, k),
        !has_key(s.remove(i), s[i].key),
{
    let r = s.remove(i);
    assert forall|a: int, b: int| 0 <= a < r.len() && 0 <= b < r.len() && a != b implies r[a].key != r[b].key by {
        let oa = if a < i { a } else { a + 1 };
        let ob = if b < i { b } else { b + 1 };
        assert(r[a] == s[oa]);
        assert(r[b] == s[ob]);
    }
    assert forall|k: TypeKey| has_key(r, k) <==> (k != s[i].key && has_key(s, k)) by {
        if has_key(r, k) {
            let a = choose|a: int| 0 <= a < r.len() && #[trigger] r[a].key == k;
            let oa = if a < i { a } else { a + 1 };
            assert(s[oa].key == k);
        }
        if k != s[i].key && has_key(s, k) {
            let j = choose|j: int| 0 <= j < s.len() && #[trigger] s[j].key == k;
            let rj = if j < i { j } else { j - 1 };
            assert(r[rj] == s[j]);
        }
    }
    assert forall|k: TypeKey| k != s[i].key implies value_of(r, k) == value_of(s, k) by {
        if has_key(s, k) {
            let j = choose|j: int| 0 <= j < s.len() && #[trigger] s[j].key == k;
            lemma_key_index_unique(s, j);
            let rj = if j < i { j } else { j - 1 };
            assert(r[rj] == s[j]);
            lemma_key_index_unique(r, rj);
        }
    }
}

/// Linked list of nodes keyed by type key.
pub struct StorageListHead<V> {
    nodes: Vec<StorageListNode<V>>,
}

impl<V> View for StorageListHead<V> {
    type V = Seq<StorageListNode<V>>;

    /// The nodes, newest first.
    closed spec fn view(&self) -> Seq<StorageListNode<V>> {
        self.nodes@
    }
}

/// An owning handle to a value that is not linked into any list.
pub struct LocalHandle<V> {
    node: StorageListNode<V>,
}

impl<V> LocalHandle<V> {
    pub closed spec fn spec_key(&self) -> TypeKey {
        self.node.key
    }

    pub closed spec fn spec_value(&self) -> V {
        self.node.value
    }

    pub fn get(&self) -> (r: &V)
        ensures
            *r == self.spec_value(),
    {
        &self.node.value
    }

    pub fn get_mut(&mut self) -> (r: &mut V)
        ensures
            *r == old(self).spec_value(),
            final(self).spec_value() == *final(r),
            final(self).spec_key() == old(self).spec_key(),
    {
        &mut self.node.value
    }

    pub fn into_node(self) -> (r: StorageListNode<V>)
        ensures
            r.key == self.spec_key(),
            r.value == self.spec_value(),
    {
        self.node
    }

    pub fn from_node(node: StorageListNode<V>) -> (r: LocalHandle<V>)
        ensures
            r.spec_key() == node.key,
            r.spec_value() == node.value,
    {
        LocalHandle { node }
    }
}

/// Shared access to a value unlinked from its list; give it back to the list
/// with [`StorageListHead::release_ref`].
pub struct LocalRef<V> {
    node: StorageListNode<V>,
}

impl<V> LocalRef<V> {
    pub closed spec fn spec_node(&self) -> StorageListNode<V> {
        self.node
    }

    pub fn deref(&self) -> (r: &V)
        ensures
            *r == self.spec_node().value,
    {
        &self.node.value
    }
}

/// Exclusive access to a value unlinked from its list; give it back with
/// [`StorageListHead::release_ref_mut`].
pub struct LocalRefMut<V> {
    node: StorageListNode<V>,
}

impl<V> LocalRefMut<V> {
    pub closed spec fn spec_node(&self) -> StorageListNode<V> {
        self.node
    }

    pub fn deref(&self) -> (r: &V)
        ensures
            *r == self.spec_node().value,
    {
        &self.node.value
    }

    pub fn deref_mut(&mut self) -> (r: &mut V)
        ensures
            *r == old(self).spec_node().value,
            final(self).spec_node().value == *final(r),
            final(self).spec_node().key == old(self).spec_node().key,
    {
        &mut self.node.value
    }
}

impl<V> StorageListHead<V> {
    /// No two nodes share a key.
    pub closed spec fn wf(&self) -> bool {
        keys_unique(self.nodes@)
    }

    /// A well-formed list files at most one value under each key.
    pub proof fn lemma_wf_keys_unique(&self)
        requires
            self.wf(),
        ensures
            keys_unique(self@),
    {
    }

    pub fn new() -> (r: StorageListHead<V>)
        ensures
            r.wf(),
            r@ == Seq::<StorageListNode<V>>::empty(),
    {
        StorageListHead { nodes: Vec::new() }
    }

    /// The position of the node filed under `key`.
    fn find(&self, key: TypeKey) -> (r: Option<usize>)
        requires
            self.wf(),
        ensures
            r matches Some(i) ==> i < self@.len() && self@[i as int].key == key && key_index(self@, key) == Some(i as int),
            r is None <==> !has_key(self@, key),
    {
        let mut i: usize = 0;
        let len = self.nodes.len();
        while i < len
            invariant
                len == self.nodes@.len(),
                keys_unique(self.nodes@),
                0 <= i <= len,
                forall|j: int| 0 <= j < i ==> #[trigger] self.nodes@[j].key != key,
            decreases len - i,
        {
            if self.nodes[i].key == key {
                proof {
                    lemma_key_index_unique(self.nodes@, i as int);
                }
                return Some(i);
            }
            i = i + 1;
        }
        None
    }

    /// Link `node` at the front. Filing a second value under a key already
    /// present is a configuration fault, which `requires` leaves out.
    pub fn push_node(&mut self, node: StorageListNode<V>)
        requires
            old(self).wf(),
            !has_key(old(self)@, node.key),
        ensures
            final(self).wf(),
            final(self)@ == seq![node] + old(self)@,
            value_of(final(self)@, node.key) == Some(node.value),
            forall|k: TypeKey| k != node.key ==> value_of(final(self)@, k) == value_of(old(self)@, k),
            forall|k: TypeKey| has_key(final(self)@, k) <==> (k == node.key || has_key(old(self)@, k)),
    {
        proof {
            lemma_push_front(self.nodes@, node);
        }
        self.nodes.insert(0, node);
        assert(self.nodes@ =~= seq![node] + old(self)@);
    }

    /// Unlink and return the node filed under `key`, if any.
    pub fn unlink_by_key(&mut self, key: TypeKey) -> (r: Option<StorageListNode<V>>)
        requires
            old(self).wf(),
        ensures
            final(self).wf(),
            !has_key(old(self)@, key) ==> r is None && final(self)@ == old(self)@,
            has_key(old(self)@, key) ==> (r matches Some(n) && n.key == key && Some(n.value) == value_of(old(self)@, key)
                && final(self)@ == old(self)@.remove(key_index(old(self)@, key)->0)),
            !has_key(final(self)@, key),
            forall|k: TypeKey| k != key ==> value_of(final(self)@, k) == value_of(old(self)@, k),
            forall|k: TypeKey| k != key ==> (has_key(final(self)@, k) <==> has_key(old(self)@, k)),
    {
        match self.find(key) {
            Some(i) => {
                proof {
                    lemma_remove_at(self.nodes@, i as int);
                }
                let n = self.nodes.remove(i);
                Some(n)
            },
            None => None,
        }
    }

    /// Whether a value is filed under `key`.
    pub fn contains(&self, key: TypeKey) -> (r: bool)
        requires
            self.wf(),
        ensures
            r == has_key(self@, key),
    {
        self.find(key).is_some()
    }

    /// The value filed under `key`, if any.
    pub fn as_ptr(&self, key: TypeKey) -> (r: Option<&V>)
        requires
            self.wf(),
        ensures
            r matches Some(v) ==> value_of(self@, key) == Some(*v),
            r is None <==> !has_key(self@, key),
    {
        match self.find(key) {
            Some(i) => Some(&self.nodes[i].value),
            None => None,
        }
    }

    /// A copy of the value filed under `key`, if any.
    pub fn get(&self, key: TypeKey) -> (r: Option<V>)
        where
            V: Copy,
        requires
            self.wf(),
        ensures
            r == value_of(self@, key),
    {
        match self.find(key) {
            Some(i) => Some(self.nodes[i].value),
            None => None,
        }
    }

    /// Overwrite the value filed under `key`; hands `val` back if there is
    /// none.
    pub fn set(&mut self, key: TypeKey, val: V) -> (r: Result<(), V>)
        requires
            old(self).wf(),
        ensures
            final(self).wf(),
            !has_key(old(self)@, key) ==> r == Err::<(), V>(val) && final(self)@ == old(self)@,
            has_key(old(self)@, key) ==> r is Ok && value_of(final(self)@, key) == Some(val),
            forall|k: TypeKey| k != key ==> value_of(final(self)@, k) == value_of(old(self)@, k),
            forall|k: TypeKey| has_key(final(self)@, k) <==> has_key(old(self)@, k),
    {
        match self.replace(key, val) {
            Ok(_) => Ok(()),
            Err(v) => Err(v),
        }
    }

    /// Overwrite the value filed under `key` and return the previous one;
    /// hands `val` back if there is none.
    pub fn replace(&mut self, key: TypeKey, val: V) -> (r: Result<V, V>)
        requires
            old(self).wf(),
        ensures
            final(self).wf(),
            !has_key(old(self)@, key) ==> r == Err::<V, V>(val) && final(self)@ == old(self)@,
            has_key(old(self)@, key) ==> (r matches Ok(p) && Some(p) == value_of(old(self)@, key)
                && value_of(final(self)@, key) == Some(val)),
            forall|k: TypeKey| k != key ==> value_of(final(self)@, k) == value_of(old(self)@, k),
            forall|k: TypeKey| has_key(final(self)@, k) <==> has_key(old(self)@, k),
    {
        match self.find(key) {
            Some(i) => {
                let ghost before = self.nodes@;
                let old_node = self.nodes.remove(i);
                self.nodes.insert(i, StorageListNode { key, value: val });
                proof {
                    let after = self.nodes@;
                    assert(after =~= before.update(i as int, StorageListNode { key, value: val }));
                    assert forall|a: int, b: int| 0 <= a < after.len() && 0 <= b < after.len() && a != b implies after[a].key != after[b].key by {
                        assert(after[a].key == before[a].key);
                        assert(after[b].key == before[b].key);
                    }
                    assert forall|k: TypeKey| has_key(after, k) <==> has_key(before, k) by {
                        if has_key(after, k) {
                            let j = choose|j: int| 0 <= j < after.len() && #[trigger] after[j].key == k;
                            assert(before[j].key == k);
                        }
                        if has_key(before, k) {
                            let j = choose|j: int| 0 <= j < before.len() && #[trigger] before[j].key == k;
                            assert(after[j].key == k);
                        }
                    }
                    lemma_key_index_unique(after, i as int);
                    assert forall|k: TypeKey| k != key implies value_of(after, k) == value_of(before, k) by {
                        if has_key(before, k) {
                            let j = choose|j: int| 0 <= j < before.len() && #[trigger] before[j].key == k;
                            lemma_key_index_unique(before, j);
                            lemma_key_index_unique(after, j);
                        }
                    }
                }
                Ok(old_node.value)
            },
            None => Err(val),
        }
    }

    /// Run `f` on the value filed under `key`, if any. The node is unlinked
    /// while `f` runs and relinked at the front afterwards.
    pub fn with<R, F: FnOnce(&V) -> R>(&mut self, key: TypeKey, f: F) -> (r: Option<R>)
        requires
            old(self).wf(),
            value_of(old(self)@, key) matches Some(v) ==> f.requires((&v,)),
        ensures
            final(self).wf(),
            !has_key(old(self)@, key) ==> r is None && final(self)@ == old(self)@,
            has_key(old(self)@, key) ==> (r matches Some(res) && f.ensures((&value_of(old(self)@, key)->0,), res)),
            forall|k: TypeKey| value_of(final(self)@, k) == value_of(old(self)@, k),
            forall|k: TypeKey| has_key(final(self)@, k) <==> has_key(old(self)@, k),
    {
        let node = match self.unlink_by_key(key) {
            Some(n) => n,
            None => return None,
        };
        let res = f(&node.value);
        self.push_node(node);
        Some(res)
    }

    /// Run `f` with exclusive access to the value filed under `key`, if any.
    /// The node is unlinked while `f` runs and relinked at the front, holding
    /// the value as `f` left it.
    pub fn with_mut<R, F: FnOnce(&mut V) -> R>(&mut self, key: TypeKey, f: F) -> (r: Option<R>)
        requires
            old(self).wf(),
            forall|v: &mut V| f.requires((v,)),
        ensures
            final(self).wf(),
            !has_key(old(self)@, key) ==> r is None && final(self)@ == old(self)@,
            has_key(old(self)@, key) ==> (r matches Some(res) && exists|w: &mut V| *w == value_of(old(self)@, key)->0
                && value_of(final(self)@, key) == Some(*final(w)) && f.ensures((w,), res)),
            has_key(old(self)@, key) ==> has_key(final(self)@, key),
            forall|k: TypeKey| k != key ==> value_of(final(self)@, k) == value_of(old(self)@, k),
            forall|k: TypeKey| has_key(final(self)@, k) <==> has_key(old(self)@, k),
    {
        let mut node = match self.unlink_by_key(key) {
            Some(n) => n,
            None => return None,
        };
        let res = f(&mut node.value);
        self.push_node(node);
        Some(res)
    }

    /// Link the node of `handle` at the front. Filing a second value under a
    /// key already present is a fault, which `requires` leaves out.
    pub fn put(&mut self, handle: LocalHandle<V>)
        requires
            old(self).wf(),
            !has_key(old(self)@, handle.spec_key()),
        ensures
            final(self).wf(),
            value_of(final(self)@, handle.spec_key()) == Some(handle.spec_value()),
            forall|k: TypeKey| k != handle.spec_key() ==> value_of(final(self)@, k) == value_of(old(self)@, k),
            forall|k: TypeKey| has_key(final(self)@, k) <==> (k == handle.spec_key() || has_key(old(self)@, k)),
    {
        self.push_node(handle.into_node());
    }

    /// Unlink the value filed under `key` and return its handle.
    pub fn remove(&mut self, key: TypeKey) -> (r: Option<LocalHandle<V>>)
        requires
            old(self).wf(),
        ensures
            final(self).wf(),
            !has_key(old(self)@, key) ==> r is None && final(self)@ == old(self)@,
            has_key(old(self)@, key) ==> (r matches Some(h) && h.spec_key() == key && Some(h.spec_value())
                == value_of(old(self)@, key)),
            !has_key(final(self)@, key),
            forall|k: TypeKey| k != key ==> value_of(final(self)@, k) == value_of(old(self)@, k),
    {
        match self.unlink_by_key(key) {
            Some(node) => Some(LocalHandle::from_node(node)),
            None => None,
        }
    }

    /// File `val` under `key` in one step. A key already present is a fault,
    /// which `requires` leaves out.
    pub fn put_init(&mut self, key: TypeKey, val: V)
        requires
            old(self).wf(),
            !has_key(old(self)@, key),
        ensures
            final(self).wf(),
            value_of(final(self)@, key) == Some(val),
            forall|k: TypeKey| k != key ==> value_of(final(self)@, k) == value_of(old(self)@, k),
            forall|k: TypeKey| has_key(final(self)@, k) <==> (k == key || has_key(old(self)@, k)),
    {
        self.assert_slot_empty(key);
        self.push_node(StorageListNode::new(key, val));
    }

    /// File the value produced by `init` under `key`. A key already present
    /// is a fault, which `requires` leaves out.
    pub fn put_init_with<F: FnOnce() -> V>(&mut self, key: TypeKey, init: F)
        requires
            old(self).wf(),
            !has_key(old(self)@, key),
            init.requires(()),
        ensures
            final(self).wf(),
            value_of(final(self)@, key) matches Some(v) && init.ensures((), v),
            forall|k: TypeKey| k != key ==> value_of(final(self)@, k) == value_of(old(self)@, k),
            forall|k: TypeKey| has_key(final(self)@, k) <==> (k == key || has_key(old(self)@, k)),
    {
        self.assert_slot_empty(key);
        let val = init();
        self.push_node(StorageListNode::new(key, val));
    }

    /// Check that nothing is filed under `key`; filing over an existing entry
    /// is a fault, which `requires` leaves out.
    fn assert_slot_empty(&self, key: TypeKey)
        requires
            self.wf(),
            !has_key(self@, key),
    {
    }

    /// Unlink the value filed under `key` for shared access until the guard
    /// is given back.
    pub fn borrow(&mut self, key: TypeKey) -> (r: Option<LocalRef<V>>)
        requires
            old(self).wf(),
        ensures
            final(self).wf(),
            !has_key(old(self)@, key) ==> r is None && final(self)@ == old(self)@,
            has_key(old(self)@, key) ==> (r matches Some(g) && g.spec_node().key == key
                && Some(g.spec_node().value) == value_of(old(self)@, key)),
            !has_key(final(self)@, key),
            forall|k: TypeKey| k != key ==> value_of(final(self)@, k) == value_of(old(self)@, k),
            forall|k: TypeKey| k != key ==> (has_key(final(self)@, k) <==> has_key(old(self)@, k)),
    {
        match self.unlink_by_key(key) {
            Some(node) => Some(LocalRef { node }),
            None => None,
        }
    }

    /// Unlink the value filed under `key` for exclusive access until the
    /// guard is given back.
    pub fn borrow_mut(&mut self, key: TypeKey) -> (r: Option<LocalRefMut<V>>)
        requires
            old(self).wf(),
        ensures
            final(self).wf(),
            !has_key(old(self)@, key) ==> r is None && final(self)@ == old(self)@,
            has_key(old(self)@, key) ==> (r matches Some(g) && g.spec_node().key == key
                && Some(g.spec_node().value) == value_of(old(self)@, key)),
            !has_key(final(self)@, key),
            forall|k: TypeKey| k != key ==> value_of(final(self)@, k) == value_of(old(self)@, k),
            forall|k: TypeKey| k != key ==> (has_key(final(self)@, k) <==> has_key(old(self)@, k)),
    {
        match self.unlink_by_key(key) {
            Some(node) => Some(LocalRefMut { node }),
            None => None,
        }
    }

    /// Give back a shared borrow: relink its node at the front. Relinking
    /// into a slot filed meanwhile is a fault, which `requires` leaves out.
    pub fn release_ref(&mut self, guard: LocalRef<V>)
        requires
            old(self).wf(),
            !has_key(old(self)@, guard.spec_node().key),
        ensures
            final(self).wf(),
            final(self)@ == seq![guard.spec_node()] + old(self)@,
    {
        self.push_node(guard.node);
    }

    /// Give back an exclusive borrow: relink its node, with the value as left
    /// by the borrower, at the front.
    pub fn release_ref_mut(&mut self, guard: LocalRefMut<V>)
        requires
            old(self).wf(),
            !has_key(old(self)@, guard.spec_node().key),
        ensures
            final(self).wf(),
            final(self)@ == seq![guard.spec_node()] + old(self)@,
    {
        self.push_node(guard.node);
    }

    /// Publish `src` into this list: it runs with a context over the list
    /// and may file values, failing with the first error it meets.
    pub fn try_publish<P: Publish<V>>(&mut self, src: &P) -> (r: Result<(), PublishError>)
        requires
            old(self).wf(),
        ensures
            final(self).wf(),
            forall|k: TypeKey| #[trigger] has_key(old(self)@, k) ==> has_key(final(self)@, k),
            src.publishes(&*old(self), &*final(self), r),
    {
        let mut ctx = PublishCtx::new(StorageListHead::new());
        std::mem::swap(&mut ctx.head, self);
        proof {
            ctx.lemma_wf_head();
        }
        let r = src.try_publish_to(&mut ctx);
        proof {
            ctx.lemma_wf_head();
        }
        std::mem::swap(&mut ctx.head, self);
        r
    }

    /// Publish `src` into this list, for a source that cannot fail from this
    /// list: a failure is a fault, which `requires` leaves out.
    pub fn publish<P: Publish<V>>(&mut self, src: &P)
        requires
            old(self).wf(),
            forall|after: StorageListHead<V>, r: Result<(), PublishError>|
                #[trigger] src.publishes(&*old(self), &after, r) ==> r is Ok,
        ensures
            final(self).wf(),
            forall|k: TypeKey| #[trigger] has_key(old(self)@, k) ==> has_key(final(self)@, k),
            src.publishes(&*old(self), &*final(self), Ok::<(), PublishError>(())),
    {
        let r = self.try_publish(src);
        match r {
            Ok(u) => {
                assert(u == ());
                assert(r == Ok::<(), PublishError>(()));
            },
            Err(_) => {
                proof {
                    assert(false);
                }
            },
        }
    }
}

/// Borrowing a value and giving the borrow back leaves every key's value as
/// it was, and a borrowed key is unreachable while the borrow is out.
pub proof fn lemma_borrow_roundtrip<V>(before: Seq<StorageListNode<V>>, during: Seq<StorageListNode<V>>, node: StorageListNode<V>)
    requires
        keys_unique(before),
        has_key(before, node.key),
        Some(node.value) == value_of(before, node.key),
        keys_unique(during),
        !has_key(during, node.key),
        forall|k: TypeKey| k != node.key ==> value_of(during, k) == value_of(before, k),
        forall|k: TypeKey| k != node.key ==> (has_key(during, k) <==> has_key(before, k)),
    ensures
        forall|k: TypeKey| value_of(seq![node] + during, k) == value_of(before, k),
        forall|k: TypeKey| has_key(seq![node] + during, k) <==> has_key(before, k),
{
    lemma_push_front(during, node);
}

} // verus!
