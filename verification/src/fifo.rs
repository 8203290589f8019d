//! Fixed-capacity ring buffer shared by the blocking and the async channels.
//! Mutual exclusion is the caller's responsibility.
use vstd::prelude::*;

verus! {

/// The slot that lies `k` places after `tail` on a ring of `n` slots.
pub open spec fn ring_slot(tail: int, k: int, n: int) -> int {
    (tail + k) % n
}

/// The items held by a ring of `slots`, starting at `tail`, `used` of them.
pub open spec fn ring_items<T>(slots: Seq<Option<T>>, tail: int, used: int) -> Seq<T> {
    Seq::new(used as nat, |k: int| slots[ring_slot(tail, k, slots.len() as int)]->0)
}

/// Ring indices and occupancy agree: the `used` slots from `tail` on hold
/// items, the others are empty, and `head` is the slot after the last item.
pub open spec fn ring_wf<T>(slots: Seq<Option<T>>, head: int, tail: int, used: int) -> bool {
    let n = slots.len() as int;
    &&& 0 <= used <= n
    &&& (n == 0 ==> head == 0 && tail == 0)
    &&& (n > 0 ==> 0 <= tail < n && head == ring_slot(tail, used, n))
    &&& forall|k: int|
        0 <= k < n ==> (#[trigger] slots[ring_slot(tail, k, n)] is Some <==> k < used)
}

proof fn lemma_slot_range(t: int, k: int, n: int)
    requires
        n > 0,
        t >= 0,
        k >= 0,
    ensures
        0 <= ring_slot(t, k, n) < n,
{
    vstd::arithmetic::div_mod::lemma_mod_bound(t + k, n);
}

proof fn lemma_slot_zero(t: int, n: int)
    requires
        0 <= t < n,
    ensures
        ring_slot(t, 0, n) == t,
        ring_slot(t, n, n) == t,
{
    vstd::arithmetic::div_mod::lemma_small_mod(t as nat, n as nat);
    vstd::arithmetic::div_mod::lemma_mod_add_multiples_vanish(t, n);
}

/// Distinct offsets below `n` name distinct slots.
proof fn lemma_slot_injective(t: int, k1: int, k2: int, n: int)
    requires
        n > 0,
        t >= 0,
        0 <= k1 < n,
        0 <= k2 < n,
        ring_slot(t, k1, n) == ring_slot(t, k2, n),
    ensures
        k1 == k2,
{
    vstd::arithmetic::div_mod::lemma_fundamental_div_mod(t + k1, n);
    vstd::arithmetic::div_mod::lemma_fundamental_div_mod(t + k2, n);
    let q1 = (t + k1) / n;
    let q2 = (t + k2) / n;
    assert(k1 - k2 == n * (q1 - q2)) by (nonlinear_arith)
        requires
            t + k1 == n * q1 + (t + k1) % n,
            t + k2 == n * q2 + (t + k2) % n,
            (t + k1) % n == (t + k2) % n,
    ;
    if q1 - q2 >= 1 {
        assert(n * (q1 - q2) >= n) by (nonlinear_arith)
            requires
                q1 - q2 >= 1,
                n > 0,
        ;
    } else if q1 - q2 <= -1 {
        assert(n * (q1 - q2) <= -n) by (nonlinear_arith)
            requires
                q1 - q2 <= -1,
                n > 0,
        ;
    }
}

proof fn lemma_mod_plus(a: int, b: int, n: int)
    requires
        n > 0,
        a >= 0,
        b >= 0,
    ensures
        ((a % n) + b) % n == (a + b) % n,
{
    vstd::arithmetic::div_mod::lemma_fundamental_div_mod(a, n);
    let q = a / n;
    vstd::arithmetic::div_mod::lemma_mod_multiples_vanish(q, a % n + b, n);
    assert(a + b == n * q + (a % n + b));
}

/// Moving the start one slot on shifts every offset by one.
proof fn lemma_slot_shift(t: int, k: int, n: int)
    requires
        n > 0,
        t >= 0,
        k >= 0,
    ensures
        ring_slot((t + 1) % n, k, n) == ring_slot(t, k + 1, n),
        ring_slot(ring_slot(t, k, n), 1, n) == ring_slot(t, k + 1, n),
{
    lemma_mod_plus(t + 1, k, n);
    lemma_mod_plus(t + k, 1, n);
}

/// Write `item` at `head` if a slot is free; returns whether it was written.
fn push_to_slice<T>(
    head: &mut usize,
    tail: usize,
    used: &mut usize,
    fifo: &mut Vec<Option<T>>,
    item: T,
) -> (r: bool)
    requires
        ring_wf(old(fifo)@, *old(head) as int, tail as int, *old(used) as int),
    ensures
        ring_wf(final(fifo)@, *final(head) as int, tail as int, *final(used) as int),
        final(fifo)@.len() == old(fifo)@.len(),
        r == (*old(used) < old(fifo)@.len()),
        r ==> *final(used) == *old(used) + 1,
        r ==> ring_items(final(fifo)@, tail as int, *final(used) as int) =~= ring_items(
            old(fifo)@,
            tail as int,
            *old(used) as int,
        ).push(item),
        !r ==> *final(head) == *old(head) && *final(used) == *old(used) && final(fifo)@
            == old(fifo)@,
{
    if *used == fifo.len() {
        return false;
    }
    let ghost old_slots = fifo@;
    let ghost n = fifo@.len() as int;
    let ghost t = tail as int;
    let ghost u = *used as int;
    let h = *head;
    fifo[h] = Some(item);
    proof {
        lemma_slot_range(t, u + 1, n);
    }
    *head = (h + 1) % fifo.len();
    *used = *used + 1;
    proof {
        let new_slots = fifo@;
        assert forall|k: int| 0 <= k < n implies (#[trigger] new_slots[ring_slot(t, k, n)] is Some
            <==> k < u + 1) by {
            if k != u {
                if ring_slot(t, k, n) == h {
                    lemma_slot_injective(t, k, u, n);
                }
                assert(new_slots[ring_slot(t, k, n)] == old_slots[ring_slot(t, k, n)]);
                assert(old_slots[ring_slot(t, k, n)] is Some <==> k < u);
            }
        }
        lemma_slot_shift(t, u, n);
        let old_items = ring_items(old_slots, t, u);
        let new_items = ring_items(new_slots, t, u + 1);
        assert forall|k: int| 0 <= k < u + 1 implies new_items[k] == old_items.push(item)[k] by {
            if k < u {
                if ring_slot(t, k, n) == h {
                    lemma_slot_injective(t, k, u, n);
                }
            }
        }
    }
    true
}

/// Take the item at `tail` if there is one.
fn pop_from_slice<T>(
    head: usize,
    tail: &mut usize,
    used: &mut usize,
    fifo: &mut Vec<Option<T>>,
) -> (r: Option<T>)
    requires
        ring_wf(old(fifo)@, head as int, *old(tail) as int, *old(used) as int),
    ensures
        ring_wf(final(fifo)@, head as int, *final(tail) as int, *final(used) as int),
        final(fifo)@.len() == old(fifo)@.len(),
        *old(used) == 0 ==> r is None && *final(tail) == *old(tail) && *final(used) == 0
            && final(fifo)@ == old(fifo)@,
        *old(used) > 0 ==> *final(used) == *old(used) - 1 && r == Some(
            ring_items(old(fifo)@, *old(tail) as int, *old(used) as int)[0],
        ) && ring_items(final(fifo)@, *final(tail) as int, *final(used) as int) =~= ring_items(
            old(fifo)@,
            *old(tail) as int,
            *old(used) as int,
        ).drop_first(),
{
    if *used == 0 {
        return None;
    }
    let ghost old_slots = fifo@;
    let ghost n = fifo@.len() as int;
    let ghost t = *tail as int;
    let ghost u = *used as int;
    let t0 = *tail;
    proof {
        assert(n > 0);
        assert(t0 < fifo.len());
        lemma_slot_zero(t, n);
        assert(old_slots[ring_slot(t, 0, n)] is Some);
    }
    let item = fifo[t0].take();
    *tail = (t0 + 1) % fifo.len();
    *used = *used - 1;
    proof {
        let new_slots = fifo@;
        let nt = (t + 1) % n;
        lemma_slot_range(t, 1, n);
        assert forall|k: int| 0 <= k < n implies (#[trigger] new_slots[ring_slot(nt, k, n)] is Some
            <==> k < u - 1) by {
            lemma_slot_shift(t, k, n);
            if k + 1 < n {
                if ring_slot(t, k + 1, n) == t {
                    lemma_slot_injective(t, k + 1, 0, n);
                }
                assert(old_slots[ring_slot(t, k + 1, n)] is Some <==> k + 1 < u);
            } else {
                lemma_slot_zero(t, n);
            }
        }
        assert(head as int == ring_slot(nt, u - 1, n)) by {
            lemma_slot_shift(t, u - 1, n);
        }
        let old_items = ring_items(old_slots, t, u);
        let new_items = ring_items(new_slots, nt, u - 1);
        assert forall|k: int| 0 <= k < u - 1 implies new_items[k] == old_items.drop_first()[k] by {
            lemma_slot_shift(t, k, n);
            if ring_slot(t, k + 1, n) == t {
                lemma_slot_injective(t, k + 1, 0, n);
            }
        }
    }
    item
}

pub struct FIFO<T, const CAPACITY: usize> {
    // Where new data can be written (unless full)
    head: usize,
    // Where data can be read from (unless empty)
    tail: usize,
    // how many entries out of CAPACITY has been used
    used: usize,
    fifo: Vec<Option<T>>,
}

impl<T, const CAPACITY: usize> View for FIFO<T, CAPACITY> {
    type V = Seq<T>;

    /// The queued items, oldest first. The write position `head` is left
    /// out: `wf` ties it to `tail` and `used`.
    closed spec fn view(&self) -> Seq<T> {
        ring_items(self.fifo@, self.tail as int, self.used as int)
    }
}

impl<T, const CAPACITY: usize> FIFO<T, CAPACITY> {
    /// The slot vector has `CAPACITY` slots and the ring indices agree with
    /// its occupancy.
    pub closed spec fn wf(&self) -> bool {
        &&& self.fifo@.len() == CAPACITY
        &&& ring_wf(self.fifo@, self.head as int, self.tail as int, self.used as int)
    }

    /// An empty buffer with `CAPACITY` slots.
    pub fn new() -> (r: FIFO<T, CAPACITY>)
        ensures
            r.wf(),
            r@ == Seq::<T>::empty(),
    {
        let mut fifo: Vec<Option<T>> = Vec::new();
        let mut i: usize = 0;
        while i < CAPACITY
            invariant
                i <= CAPACITY,
                fifo@.len() == i,
                forall|j: int| 0 <= j < i ==> fifo@[j] is None,
            decreases CAPACITY - i,
        {
            fifo.push(None);
            i = i + 1;
        }
        let r = FIFO { head: 0, tail: 0, used: 0, fifo };
        proof {
            let n = CAPACITY as int;
            if n > 0 {
                lemma_slot_zero(0, n);
            }
            assert forall|k: int| 0 <= k < n implies !(#[trigger] fifo@[ring_slot(0, k, n)] is Some) by {
                lemma_slot_range(0, k, n);
            }
        }
        assert(r@ =~= Seq::<T>::empty());
        r
    }

    /// Appends `item` unless the buffer is full; returns whether it was
    /// appended.
    pub fn push(&mut self, item: T) -> (r: bool)
        requires
            old(self).wf(),
        ensures
            final(self).wf(),
            r == (old(self)@.len() < CAPACITY),
            r ==> final(self)@ == old(self)@.push(item),
            !r ==> final(self)@ == old(self)@,
    {
        push_to_slice(&mut self.head, self.tail, &mut self.used, &mut self.fifo, item)
    }

    /// Removes and returns the oldest item, if any.
    pub fn pop(&mut self) -> (r: Option<T>)
        requires
            old(self).wf(),
        ensures
            final(self).wf(),
            old(self)@.len() == 0 ==> r is None && final(self)@ == old(self)@,
            old(self)@.len() > 0 ==> r == Some(old(self)@[0]) && final(self)@ == old(self)@.drop_first(),
    {
        pop_from_slice(self.head, &mut self.tail, &mut self.used, &mut self.fifo)
    }

    pub fn capacity(&self) -> (r: usize)
        ensures
            r == CAPACITY,
    {
        CAPACITY
    }

    pub fn used(&self) -> (r: usize)
        requires
            self.wf(),
        ensures
            r == self@.len(),
            r <= CAPACITY,
    {
        self.used
    }

    pub fn free(&self) -> (r: usize)
        requires
            self.wf(),
        ensures
            r == CAPACITY - self@.len(),
    {
        CAPACITY - self.used
    }

    pub fn is_empty(&self) -> (r: bool)
        requires
            self.wf(),
        ensures
            r == (self@.len() == 0),
    {
        self.used == 0
    }

    pub fn is_full(&self) -> (r: bool)
        requires
            self.wf(),
        ensures
            r == (self@.len() == CAPACITY),
            self@.len() <= CAPACITY,
    {
        self.used == CAPACITY
    }
}

/// Items leave a FIFO in the order in which they entered: on a non-empty
/// queue, appending and then removing the oldest item is the same as removing
/// it first and appending afterwards, and the removed item is the oldest one.
pub proof fn lemma_fifo_order<T>(q: Seq<T>, x: T)
    requires
        q.len() > 0,
    ensures
        q.push(x)[0] == q[0],
        q.push(x).drop_first() == q.drop_first().push(x),
{
    assert(q.push(x).drop_first() =~= q.drop_first().push(x));
}

/// An item appended to an empty queue is the next item removed.
pub proof fn lemma_push_then_pop_empty<T>(x: T)
    ensures
        Seq::<T>::empty().push(x)[0] == x,
        Seq::<T>::empty().push(x).drop_first() == Seq::<T>::empty(),
{
    assert(Seq::<T>::empty().push(x).drop_first() =~= Seq::<T>::empty());
}

} // verus!
