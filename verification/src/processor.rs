//! The processor: which task it runs.
use vstd::prelude::*;
use std::sync::Arc;
use crate::path::arc_clone;

verus! {

/// The task that a processor runs.
pub struct Processor<T> {
    current: Arc<T>,
}

impl<T> Processor<T> {
    /// The task currently running.
    pub closed spec fn current_spec(&self) -> Arc<T> {
        self.current
    }

    /// A processor running the idle task `idle`.
    pub fn new(idle: &Arc<T>) -> (r: Self)
        ensures
            r.current_spec() == *idle,
    {
        Self { current: arc_clone(idle) }
    }

    /// The task currently running.
    pub fn current_task(&self) -> (r: Arc<T>)
        ensures
            r == self.current_spec(),
    {
        arc_clone(&self.current)
    }

    /// Makes `task` the task currently running.
    pub fn switch_to(&mut self, task: Arc<T>)
        ensures
            final(self).current_spec() == task,
    {
        self.current = task;
    }
}

} // verus!
