//! Units of work, and what runs them.

use vstd::prelude::*;

verus! {

/// Something that runs tasks, such as a pool of threads.
pub trait Run<T: Task> {
    /// Runs the task on the underlying executor.
    fn run(&self, task: T)
        requires
            task.runnable(),
    ;
}

/// A value that can run a unit of work.
pub trait Task {
    /// Whether the unit of work may be run.
    spec fn runnable(&self) -> bool;

    /// Run the unit of work
    fn run(self)
        requires
            self.runnable(),
    ;
}

impl<F: FnOnce()> Task for F {
    open spec fn runnable(&self) -> bool {
        self.requires(())
    }

    fn run(self) {
        self()
    }
}

impl Task for Box<dyn TaskBox> {
    open spec fn runnable(&self) -> bool {
        self.runnable_boxed()
    }

    fn run(self) {
        self.run_boxes();
    }
}

/// A unit of work that is run from a box, so that units of different types
/// can be kept side by side.
pub trait TaskBox {
    /// Whether the unit of work may be run.
    spec fn runnable_boxed(&self) -> bool;

    fn run_boxes(self: Box<Self>)
        requires
            self.runnable_boxed(),
    ;
}

impl<F: FnOnce()> TaskBox for F {
    open spec fn runnable_boxed(&self) -> bool {
        self.requires(())
    }

    fn run_boxes(self: Box<Self>) {
        (*self)()
    }
}

} // verus!
