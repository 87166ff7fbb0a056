//! Composable polling primitives: a single eventual value task, an
//! asynchronous sequence task, and an asynchronous consumer task, together
//! with an algebra of adapters that transform and combine them.
//!
//! Every adapter is a small explicit state machine.  A poll never blocks:
//! it either reports a result or reports that no progress was possible.
//! The task contracts live in [`task`]; the adapters each have a module of
//! their own.

pub mod collect;
pub mod err_into;
pub mod eventual;
pub mod flatten;
pub mod iter;
pub mod map_err;
pub mod select;
pub mod select_next_some;
pub mod sinks;
pub mod task;
pub mod try_collect;
pub mod with;
