//! The post-processing pipeline: pre-processing filters run on each image
//! as it is taken, post-processing filters on each complete set.
use vstd::prelude::*;

verus! {

/// A work scheduler that runs the work of many filters on every core it has.
pub struct Worker {}

/// A piece of work: initialised locally, possibly sent to a remote work
/// server, returning the result of the processing done.
pub trait Job {
    /// Add input to the job.
    fn add_data(&mut self);

    /// Run the job.
    fn run(&mut self) -> Result<i32, ()>;
}

} // verus!
