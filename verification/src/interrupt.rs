//! The priority bookkeeping of an interrupt handler: it runs at its own
//! priority, raised by the scoped ceiling locks it holds (kept highest
//! ceiling first) and by the ceiling of the nesting lock it holds, if any.
use crate::priority::{rank, spec_priority, spec_some, Priority, PriorityOpt};
use crate::thread::{
    ceiling_head, ceiling_position, ceiling_sorted, insert_ceiling_lock, remove_ceiling_lock,
    spec_effective_priority, spec_lock_priority, without_lock, CeilingLockEntry,
};
use vstd::prelude::*;

verus! {

pub struct RawInterruptHandler {
    interrupt_id: u32,
    base_priority: Priority,
    ceiling_locks: Vec<CeilingLockEntry>,
    nesting_lock_priority: PriorityOpt,
}

impl RawInterruptHandler {
    /// The held scoped locks are kept highest ceiling first.
    pub closed spec fn wf(&self) -> bool {
        ceiling_sorted(self.ceiling_locks@)
    }

    pub closed spec fn spec_interrupt_id(&self) -> u32 {
        self.interrupt_id
    }

    pub closed spec fn spec_base_priority(&self) -> Priority {
        self.base_priority
    }

    pub closed spec fn spec_ceiling_locks(&self) -> Seq<CeilingLockEntry> {
        self.ceiling_locks@
    }

    pub closed spec fn spec_nesting_lock_priority(&self) -> PriorityOpt {
        self.nesting_lock_priority
    }

    /// The priority the handler runs at.
    pub open spec fn spec_priority(&self) -> Priority {
        spec_effective_priority(
            self.spec_base_priority(),
            spec_lock_priority(self.spec_nesting_lock_priority(), self.spec_ceiling_locks()),
            PriorityOpt::Absent,
        )
    }

    /// A handler of priority `base_priority`, holding no lock.
    pub fn new(interrupt_id: u32, base_priority: Priority) -> (r: RawInterruptHandler)
        ensures
            r.wf(),
            r.spec_interrupt_id() == interrupt_id,
            r.spec_base_priority() == base_priority,
            r.spec_ceiling_locks().len() == 0,
            r.spec_nesting_lock_priority() is Absent,
    {
        RawInterruptHandler {
            interrupt_id,
            base_priority,
            ceiling_locks: Vec::new(),
            nesting_lock_priority: PriorityOpt::none(),
        }
    }

    pub fn interrupt_id(&self) -> (r: u32)
        ensures
            r == self.spec_interrupt_id(),
    {
        self.interrupt_id
    }

    pub fn nesting_lock_priority(&self) -> (r: PriorityOpt)
        ensures
            r == self.spec_nesting_lock_priority(),
    {
        self.nesting_lock_priority
    }

    pub fn priority(&self) -> (r: Priority)
        ensures
            r == self.spec_priority(),
    {
        let scoped = if self.ceiling_locks.len() == 0 {
            PriorityOpt::none()
        } else {
            PriorityOpt::some(self.ceiling_locks[0].ceiling)
        };
        let lock_priority = self.nesting_lock_priority.max(scoped);
        self.base_priority.max_valid(lock_priority).max_valid(PriorityOpt::none())
    }

    /// Record the scoped ceiling lock `lock` as held, after every held lock
    /// of a strictly higher ceiling.
    pub fn ceiling_lock_acquired(&mut self, lock: CeilingLockEntry)
        requires
            old(self).wf(),
        ensures
            final(self).wf(),
            final(self).spec_ceiling_locks() == old(self).spec_ceiling_locks().insert(
                ceiling_position(old(self).spec_ceiling_locks(), lock.ceiling),
                lock,
            ),
            final(self).spec_interrupt_id() == old(self).spec_interrupt_id(),
            final(self).spec_base_priority() == old(self).spec_base_priority(),
            final(self).spec_nesting_lock_priority() == old(self).spec_nesting_lock_priority(),
    {
        insert_ceiling_lock(&mut self.ceiling_locks, lock);
    }

    /// Drop the record of the scoped ceiling lock `lock_id`.
    pub fn ceiling_lock_released(&mut self, lock_id: u32)
        requires
            old(self).wf(),
        ensures
            final(self).wf(),
            final(self).spec_ceiling_locks() == without_lock(old(self).spec_ceiling_locks(), lock_id),
            final(self).spec_interrupt_id() == old(self).spec_interrupt_id(),
            final(self).spec_base_priority() == old(self).spec_base_priority(),
            final(self).spec_nesting_lock_priority() == old(self).spec_nesting_lock_priority(),
    {
        remove_ceiling_lock(&mut self.ceiling_locks, lock_id);
    }

    /// Raise the nesting-lock priority to the ceiling `new_priority` of a
    /// nesting lock being taken; returns the previous one. A nesting-lock
    /// priority already above `new_priority` is a fault, which `requires`
    /// leaves out.
    pub fn raise_nesting_lock_priority(&mut self, new_priority: Priority) -> (r: PriorityOpt)
        requires
            spec_priority(old(self).spec_nesting_lock_priority()) matches Some(p) ==> rank(p) <= rank(new_priority),
        ensures
            r == old(self).spec_nesting_lock_priority(),
            final(self).spec_nesting_lock_priority() == spec_some(new_priority),
            final(self).spec_ceiling_locks() == old(self).spec_ceiling_locks(),
            final(self).spec_interrupt_id() == old(self).spec_interrupt_id(),
            final(self).spec_base_priority() == old(self).spec_base_priority(),
            final(self).wf() == old(self).wf(),
    {
        let old_priority = self.nesting_lock_priority;
        self.nesting_lock_priority = PriorityOpt::some(new_priority);
        old_priority
    }

    pub fn set_nesting_lock_priority(&mut self, new_priority: PriorityOpt)
        ensures
            final(self).spec_nesting_lock_priority() == new_priority,
            final(self).spec_ceiling_locks() == old(self).spec_ceiling_locks(),
            final(self).spec_interrupt_id() == old(self).spec_interrupt_id(),
            final(self).spec_base_priority() == old(self).spec_base_priority(),
            final(self).wf() == old(self).wf(),
    {
        self.nesting_lock_priority = new_priority;
    }
}

/// A handler runs at least at the ceiling of the nesting lock it holds.
pub proof fn lemma_handler_priority_at_least_nesting(h: RawInterruptHandler)
    ensures
        spec_priority(h.spec_nesting_lock_priority()) matches Some(q) ==> rank(h.spec_priority()) >= rank(q),
{
    match spec_priority(h.spec_nesting_lock_priority()) {
        Some(q) => {
            crate::thread::lemma_effective_at_least_lock(
                h.spec_base_priority(),
                h.spec_nesting_lock_priority(),
                h.spec_ceiling_locks(),
                PriorityOpt::Absent,
                q,
            );
        },
        None => {},
    }
}

} // verus!
