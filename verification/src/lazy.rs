//! A lazily initialized value.
//!
//! The cell is created empty, together with a stored zero-argument initializer.
//! The first access runs the initializer, places the produced value in the
//! cell's slot, and returns a reference to it; every later access returns a
//! reference to that same value and the initializer never runs again. A cell
//! that is never accessed never runs its initializer at all.
//!
//! The access path keeps the shape of the double-checked, guard-protected
//! protocol that a concurrent realization of this cell uses (see the
//! `protocol` module): a fast check of the slot, acquisition of the guard, a
//! mandatory re-check under the guard, and only then the single initializer
//! invocation that occupies the slot. Exclusive access (`&mut self`) stands
//! here for the mutual exclusion that the guard provides between racing
//! threads; the two fatal invariant violations of the concurrent cell — a
//! second write to the slot, and a release of the guard by a party that does
//! not hold it — are excluded statically by the contracts of the slot and
//! guard operations.
//!
//! The cell owns its slot and its initializer outright, so dropping it
//! releases an occupied slot's value exactly once, and releases nothing but
//! the stored initializer when the slot is still empty: no destruction code
//! is needed, where the concurrent cell must reclaim its raw allocation by
//! hand.

use vstd::prelude::*;

verus! {

/// A lazily initialized value.
pub struct Lazy<T, F> {
    /// The slot: owns the heap-allocated value once it has been produced.
    /// It is written at most once over the cell's life.
    slot: Option<Box<T>>,
    /// The guard: `true` exactly while an initialization is in progress.
    init_mu: bool,
    /// The stored initializer, supplied at construction and never changed.
    init: F,
    /// How many times the initializer has run.
    invocations: Ghost<nat>,
}

impl<T, F: Fn() -> T> Lazy<T, F> {
    /// Whether the slot is occupied.
    pub closed spec fn initialized(self) -> bool {
        self.slot is Some
    }

    /// The contained value.
    pub closed spec fn value(self) -> T
        recommends
            self.initialized(),
    {
        *self.slot->Some_0
    }

    /// The stored initializer.
    pub closed spec fn initializer(self) -> F {
        self.init
    }

    /// Whether the guard is locked, that is, an initialization is in progress.
    pub closed spec fn guard_held(self) -> bool {
        self.init_mu
    }

    /// How many times the initializer has run.
    pub closed spec fn init_calls(self) -> nat {
        self.invocations@
    }

    /// A cell at rest: the guard is unlocked, the initializer has run exactly
    /// once if the slot is occupied and not at all otherwise, and an occupied
    /// slot holds a value the initializer can have produced.
    pub open spec fn wf(self) -> bool {
        &&& !self.guard_held()
        &&& self.init_calls() == (if self.initialized() {
            1nat
        } else {
            0nat
        })
        &&& (self.initialized() ==> call_ensures(self.initializer(), (), self.value()))
    }

    /// Create a new cell: empty slot, unlocked guard, stored initializer.
    /// Allocates nothing and cannot fail; the initializer does not run.
    pub fn new(init: F) -> (cell: Self)
        ensures
            cell.wf(),
            !cell.initialized(),
            cell.init_calls() == 0,
            cell.initializer() == init,
    {
        Lazy { slot: None, init_mu: false, init, invocations: Ghost(0nat) }
    }

    /// The fields the guard operations leave untouched.
    spec fn same_but_guard(pre: Self, post: Self) -> bool {
        post.slot == pre.slot && post.init == pre.init && post.invocations == pre.invocations
    }

    /// One attempt to flip the guard from unlocked to locked; it wins exactly
    /// when no holder existed. This stands for the compare-and-swap of the
    /// concurrent cell; a losing attempt changes nothing and is retried.
    fn guard_try_acquire(&mut self) -> (won: bool)
        ensures
            won == !old(self).guard_held(),
            final(self).guard_held(),
            Self::same_but_guard(*old(self), *final(self)),
    {
        let won = !self.init_mu;
        self.init_mu = true;
        won
    }

    /// Unlock the guard. A release by a party that does not hold the guard is
    /// the fatal misuse of the concurrent cell; the precondition excludes it
    /// statically, where the concurrent cell aborts at run time.
    fn guard_release(&mut self)
        requires
            old(self).guard_held(),
        ensures
            !final(self).guard_held(),
            Self::same_but_guard(*old(self), *final(self)),
    {
        self.init_mu = false;
    }

    /// Occupy the empty slot with a produced value. A second write to the
    /// slot is the fatal double initialization of the concurrent cell; the
    /// precondition excludes it statically, where the concurrent cell aborts
    /// at run time.
    fn slot_occupy(&mut self, produced: Box<T>)
        requires
            !old(self).initialized(),
        ensures
            final(self).initialized(),
            final(self).value() == *produced,
            final(self).guard_held() == old(self).guard_held(),
            final(self).initializer() == old(self).initializer(),
            final(self).init_calls() == old(self).init_calls(),
    {
        self.slot = Some(produced);
    }

    /// Make sure the cell is initialized, running the stored initializer if —
    /// and only if — the slot is still empty.
    ///
    /// The body keeps the shape of the double-checked protocol (see the
    /// `protocol` module): a fast check of the slot, acquisition of the
    /// guard — spinning while another holder keeps it, which under exclusive
    /// access never happens — the mandatory re-check under the guard, and
    /// only then the single initializer invocation that occupies the slot.
    /// The guard is unlocked again on every path.
    pub fn force(&mut self)
        requires
            old(self).wf(),
            call_requires(old(self).initializer(), ()),
        ensures
            final(self).wf(),
            final(self).initialized(),
            final(self).initializer() == old(self).initializer(),
            old(self).initialized() ==> *final(self) == *old(self),
            !old(self).initialized() ==> final(self).init_calls() == old(self).init_calls() + 1,
            call_ensures(old(self).initializer(), (), final(self).value()),
    {
        // Fast path: a slot observed occupied is final, return at once.
        if self.slot.is_some() {
            return;
        }

        // Acquire the guard, retrying while another holder keeps it locked.
        // Exclusive access means no other holder can exist, so the first
        // attempt wins and the loop body never spins.
        let ghost entry = *self;
        loop
            invariant_except_break
                *self == entry,
                !self.guard_held(),
            ensures
                self.guard_held(),
                Self::same_but_guard(entry, *self),
            decreases 0int,
        {
            if self.guard_try_acquire() {
                break;
            }
        }

        // Mandatory re-check under the guard: in the concurrent protocol some
        // other thread may have completed the initialization between the fast
        // check and the acquisition; the initializer must then not run again.
        if self.slot.is_some() {
            self.guard_release();
            return;
        }

        // The slot is still empty and the guard is held: run the initializer,
        // exactly once, and occupy the slot with the fully constructed value.
        let produced = (self.init)();
        self.invocations = Ghost(self.invocations@ + 1);
        self.slot_occupy(Box::new(produced));
        self.guard_release();
    }

    /// A reference to the contained value of an initialized cell.
    pub fn get(&self) -> (r: &T)
        requires
            self.initialized(),
        ensures
            *r == self.value(),
    {
        match &self.slot {
            Some(boxed) => &**boxed,
            None => unreached(),
        }
    }

    /// A reference to the contained value, computed on the first call: the
    /// dereference of the concurrent cell. Successive calls return references
    /// to the identical value, and the initializer runs at most once over the
    /// cell's whole life.
    pub fn access(&mut self) -> (r: &T)
        requires
            old(self).wf(),
            call_requires(old(self).initializer(), ()),
        ensures
            final(self).wf(),
            final(self).initialized(),
            final(self).initializer() == old(self).initializer(),
            *r == final(self).value(),
            call_ensures(old(self).initializer(), (), *r),
            old(self).initialized() ==> *final(self) == *old(self),
            !old(self).initialized() ==> final(self).init_calls() == old(self).init_calls() + 1,
    {
        self.force();
        self.get()
    }
}

/// Law: a well-formed cell has run its initializer at most once — exactly
/// once when its slot is occupied, and not at all otherwise. Together with
/// the contracts of `new` (count zero) and `force` (an initialized cell is
/// left untouched), this pins the count to at most one over the cell's whole
/// life, however many accesses occur.
pub proof fn lemma_init_at_most_once<T, F: Fn() -> T>(cell: Lazy<T, F>)
    requires
        cell.wf(),
    ensures
        cell.init_calls() <= 1,
        cell.initialized() <==> cell.init_calls() == 1,
{
}

} // verus!
