//! Processing pipeline interfaces: units of work, the handlers that run
//! them, export hooks, and a scheduler bound to local or remote work.
pub mod pipeline;

use vstd::prelude::*;

verus! {

/// A piece of work to be done. It can be initialised locally, then sent to
/// a remote work server, returning the result of the processing done.
pub trait Work {
    /// Add input to this unit of work.
    fn add_workload(&mut self);

    /// Run the work.
    fn work(&mut self) -> Result<i32, ()>;
}

/// A work handler. Work is dispatched asynchronously, with no guarantee on
/// the order in which it runs; a work ID can be fenced.
pub trait Worker {
    /// Hand one unit of work to the handler under an ID.
    fn dispatch(&self, id: &str, work: Box<dyn Work>);

    /// Whether the work under an ID has finished.
    fn fence(id: &str) -> bool;
}

/// Export to a platform target, called on processed work.
pub trait Export {
    /// Export the processed result.
    fn export(&self);
}

/// Whether a scheduler runs work itself or hands it to a remote worker.
#[derive(Clone, Copy, Debug, PartialEq, Eq, Structural)]
#[allow(non_camel_case_types)]
pub enum Type {
    /// Work runs on this machine.
    LOCAL,
    /// Work is sent to a remote worker.
    REMOTE,
}

/// A scheduler bound to local or remote work.
pub struct Scheduler {
    t: Type,
}

impl Scheduler {
    /// The mode the scheduler was built for.
    pub closed spec fn mode(&self) -> Type {
        self.t
    }

    /// A scheduler bound to the given mode.
    pub fn new(t: Type) -> (s: Scheduler)
        ensures
            s.mode() == t,
    {
        Scheduler { t }
    }

    /// Accepts one unit of work; no worker is bound yet, so nothing runs.
    pub fn dispatch(&mut self, work: Box<dyn Work>)
        ensures
            final(self).mode() == old(self).mode(),
    {
    }
}

/// Pre-processing colour correction; it has no input and always succeeds.
pub struct ColorCorrect {}

impl Work for ColorCorrect {
    fn add_workload(&mut self) {
    }

    fn work(&mut self) -> (r: Result<i32, ()>)
        ensures
            r == Ok::<i32, ()>(0),
    {
        Ok(0)
    }
}

/// Handle of the image workers.
pub struct Workers {}

} // verus!
