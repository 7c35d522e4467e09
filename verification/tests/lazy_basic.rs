use lazy_once::lazy::Lazy;
use std::cell::Cell;
use std::rc::Rc;

/// Single thread: the initializer returns 42; the first access returns 42 and
/// the invocation counter equals 1; a second access also returns 42 with the
/// counter still equal to 1.
#[test]
fn scenario_single_thread() {
    let hits = Rc::new(Cell::new(0u32));
    let h = hits.clone();
    let mut cell = Lazy::new(move || {
        h.set(h.get() + 1);
        42u32
    });
    assert_eq!(*cell.access(), 42);
    assert_eq!(hits.get(), 1);
    assert_eq!(*cell.access(), 42);
    assert_eq!(hits.get(), 1);
}

/// Laziness: a cell on which access is never called never invokes its
/// initializer.
#[test]
fn never_accessed_never_invoked() {
    let hits = Rc::new(Cell::new(0u32));
    let h = hits.clone();
    {
        let _cell = Lazy::new(move || {
            h.set(h.get() + 1);
            7u32
        });
    }
    assert_eq!(hits.get(), 0);
}

/// Many accesses on one cell: the initializer runs exactly once and every
/// returned value is identical to the first (the initializer returns the
/// pre-increment count, so a second run would be visible as a different
/// value).
#[test]
fn many_accesses_one_invocation() {
    let hits = Rc::new(Cell::new(0u32));
    let h = hits.clone();
    let mut cell = Lazy::new(move || {
        let n = h.get();
        h.set(n + 1);
        n
    });
    let mut seen: Vec<u32> = Vec::new();
    for _ in 0..1000 {
        seen.push(*cell.access());
    }
    assert_eq!(hits.get(), 1);
    assert!(seen.iter().all(|&v| v == seen[0]));
    assert_eq!(seen[0], 0);
}

/// Dropping an initialized cell releases the contained value's resources
/// exactly once.
#[test]
fn drop_initialized_releases_once() {
    let token = Rc::new(());
    let captured = token.clone();
    let mut cell = Lazy::new(move || captured.clone());
    assert_eq!(Rc::strong_count(&token), 2);
    cell.force();
    assert_eq!(Rc::strong_count(&token), 3);
    drop(cell);
    assert_eq!(Rc::strong_count(&token), 1);
}

/// Dropping an uninitialized cell performs no release of a contained value
/// (only the stored initializer itself is released) and leaks nothing.
#[test]
fn drop_uninitialized_releases_nothing() {
    let token = Rc::new(());
    let captured = token.clone();
    let cell = Lazy::new(move || captured.clone());
    assert_eq!(Rc::strong_count(&token), 2);
    drop(cell);
    assert_eq!(Rc::strong_count(&token), 1);
}

/// force is idempotent: a second force leaves the cell untouched and the
/// initializer does not run again.
#[test]
fn force_runs_once() {
    let hits = Rc::new(Cell::new(0u32));
    let h = hits.clone();
    let mut cell = Lazy::new(move || {
        h.set(h.get() + 1);
        5u8
    });
    cell.force();
    cell.force();
    assert_eq!(hits.get(), 1);
    assert_eq!(*cell.get(), 5);
}

/// get after force returns the same value on every call, for a heap-owning
/// value type.
#[test]
fn get_same_value() {
    let mut cell = Lazy::new(|| vec![1u64, 2, 3]);
    cell.force();
    let first = cell.get().clone();
    assert_eq!(first, vec![1u64, 2, 3]);
    assert_eq!(*cell.get(), first);
    assert_eq!(*cell.access(), first);
}
