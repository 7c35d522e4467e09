//! A thread-safe lazy-initialization cell.
//!
//! `lazy::Lazy` holds a value that is computed by a stored initializer on the
//! first access and shared by every later access; the initializer runs at most
//! once over the cell's whole life. The `protocol` module states the
//! double-checked, guard-protected initialization protocol that a concurrent
//! realization of the cell follows, as a transition system over any number of
//! racing threads, and proves its safety laws.

pub mod lazy;
pub mod protocol;
