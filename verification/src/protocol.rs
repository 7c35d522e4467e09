//! The double-checked initialization protocol.
//!
//! This module states, as a transition system over any number of racing
//! threads, the protocol that a concurrent realization of the lazy cell
//! follows: threads race to flip the guard from unlocked to locked with a
//! compare-and-swap; the winner re-checks the slot under the guard, runs the
//! initializer only if the slot is still empty, publishes the produced value,
//! and unlocks the guard. Values and threads appear as abstract identities.
//!
//! The laws proved here hold of every run of the protocol, whatever the
//! number of threads and the order of their steps: the initializer runs at
//! most once; a publish always finds the slot empty, so the fatal double
//! write cannot occur; and once the slot is occupied it holds the identical
//! value for the rest of the run.

use vstd::prelude::*;

verus! {

/// A snapshot of one cell's shared state during the initialization race.
pub struct CellState {
    /// The identity of the published value, or empty.
    pub slot: Option<int>,
    /// The thread holding the guard, if any.
    pub guard: Option<int>,
    /// Whether the guard holder is running the initializer.
    pub running: bool,
    /// How many times the initializer has been invoked.
    pub inits: nat,
}

/// One atomic step of one thread.
pub enum Action {
    /// The winning compare-and-swap: the guard flips from unlocked to locked
    /// in favour of thread `t`.
    Acquire { t: int },
    /// The guard holder, having re-checked under the guard that the slot is
    /// still empty, invokes the initializer.
    Invoke { t: int },
    /// The guard holder publishes the produced value `v` into the slot.
    Publish { t: int, v: int },
    /// The guard holder unlocks the guard, either after publishing or after
    /// the re-check found the slot already occupied.
    Release { t: int },
}

/// The state of a fresh cell: empty slot, unlocked guard, initializer unrun.
pub open spec fn starting(s: CellState) -> bool {
    s.slot is None && s.guard is None && !s.running && s.inits == 0
}

/// Whether action `a` can be taken in state `s`. A thread only invokes or
/// publishes while it holds the guard, only invokes after its re-check found
/// the slot empty, and only releases a guard it holds.
pub open spec fn enabled(s: CellState, a: Action) -> bool {
    match a {
        Action::Acquire { t } => s.guard is None,
        Action::Invoke { t } => s.guard == Some(t) && s.slot is None && !s.running,
        Action::Publish { t, v } => s.guard == Some(t) && s.running,
        Action::Release { t } => s.guard == Some(t) && !s.running,
    }
}

/// The state after action `a` is taken in state `s`.
pub open spec fn step(s: CellState, a: Action) -> CellState {
    match a {
        Action::Acquire { t } => (CellState { guard: Some(t), ..s }),
        Action::Invoke { t } => (CellState { running: true, inits: s.inits + 1, ..s }),
        Action::Publish { t, v } => (CellState { slot: Some(v), running: false, ..s }),
        Action::Release { t } => (CellState { guard: None, ..s }),
    }
}

/// The protocol invariant: the initializer has run at most once — exactly
/// once when the slot is occupied or a run of it is in progress; the slot is
/// never occupied while the initializer is still running, so no publish can
/// find it occupied; and only the guard holder ever runs the initializer.
pub open spec fn inv(s: CellState) -> bool {
    &&& s.inits <= 1
    &&& s.inits == (if s.slot is Some || s.running {
        1nat
    } else {
        0nat
    })
    &&& !(s.slot is Some && s.running)
    &&& (s.running ==> s.guard is Some)
}

/// A fresh cell satisfies the protocol invariant.
pub proof fn lemma_starting_inv(s: CellState)
    requires
        starting(s),
    ensures
        inv(s),
{
}

/// Every enabled step preserves the protocol invariant.
pub proof fn lemma_step_preserves_inv(s: CellState, a: Action)
    requires
        inv(s),
        enabled(s, a),
    ensures
        inv(step(s, a)),
{
}

/// Law: a publish always finds the slot empty. The fatal double write to the
/// slot cannot occur in any state the protocol can reach.
pub proof fn lemma_publish_slot_empty(s: CellState, a: Action)
    requires
        inv(s),
        enabled(s, a),
        a is Publish,
    ensures
        s.slot is None,
{
}

/// Law: an occupied slot is never changed by any enabled step — once a value
/// is published, its identity is final.
pub proof fn lemma_slot_stable(s: CellState, a: Action)
    requires
        inv(s),
        enabled(s, a),
        s.slot is Some,
    ensures
        step(s, a).slot == s.slot,
{
}

/// A run of the protocol: each action in turn is enabled in the state the
/// previous actions produced.
pub open spec fn is_run(s: CellState, tr: Seq<Action>) -> bool
    decreases tr.len(),
{
    tr.len() == 0 || (enabled(s, tr.first()) && is_run(step(s, tr.first()), tr.drop_first()))
}

/// The state a run ends in.
pub open spec fn run_end(s: CellState, tr: Seq<Action>) -> CellState
    decreases tr.len(),
{
    if tr.len() == 0 {
        s
    } else {
        run_end(step(s, tr.first()), tr.drop_first())
    }
}

/// The protocol invariant holds at the end of every run that starts in a
/// state satisfying it.
pub proof fn lemma_run_preserves_inv(s: CellState, tr: Seq<Action>)
    requires
        inv(s),
        is_run(s, tr),
    ensures
        inv(run_end(s, tr)),
    decreases tr.len(),
{
    if tr.len() > 0 {
        lemma_step_preserves_inv(s, tr.first());
        lemma_run_preserves_inv(step(s, tr.first()), tr.drop_first());
    }
}

/// Law: whatever threads race on a fresh cell and in whatever order their
/// steps interleave, the initializer is invoked at most once over the whole
/// run, and exactly once whenever the run ends with the slot occupied.
pub proof fn lemma_run_at_most_once(s: CellState, tr: Seq<Action>)
    requires
        starting(s),
        is_run(s, tr),
    ensures
        run_end(s, tr).inits <= 1,
        run_end(s, tr).slot is Some ==> run_end(s, tr).inits == 1,
{
    lemma_starting_inv(s);
    lemma_run_preserves_inv(s, tr);
}

/// Law: once the slot holds a value, every later state of the run holds the
/// identical value — all threads that observe an occupied slot observe the
/// same value.
pub proof fn lemma_run_slot_stable(s: CellState, tr: Seq<Action>, v: int)
    requires
        inv(s),
        is_run(s, tr),
        s.slot == Some(v),
    ensures
        run_end(s, tr).slot == Some(v),
    decreases tr.len(),
{
    if tr.len() > 0 {
        lemma_slot_stable(s, tr.first());
        lemma_step_preserves_inv(s, tr.first());
        lemma_run_slot_stable(step(s, tr.first()), tr.drop_first(), v);
    }
}

/// Whether no thread invokes the initializer anywhere in the run.
pub open spec fn no_invoke(tr: Seq<Action>) -> bool {
    forall|i: int| 0 <= i < tr.len() ==> !(#[trigger] tr[i] is Invoke)
}

/// Law (laziness): a run in which no thread invokes the initializer leaves
/// the invocation count unchanged — a cell nobody reads runs nothing.
pub proof fn lemma_run_lazy(s: CellState, tr: Seq<Action>)
    requires
        is_run(s, tr),
        no_invoke(tr),
    ensures
        run_end(s, tr).inits == s.inits,
    decreases tr.len(),
{
    if tr.len() > 0 {
        assert(!(tr[0] is Invoke));
        assert forall|i: int| 0 <= i < tr.drop_first().len() implies !(#[trigger] tr.drop_first()[i]
            is Invoke) by {
            assert(tr.drop_first()[i] == tr[i + 1]);
        }
        lemma_run_lazy(step(s, tr.first()), tr.drop_first());
    }
}

} // verus!
