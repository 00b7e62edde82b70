//! The task runner's settings.
use vstd::prelude::*;

verus! {

/// The settings of a run: where it logs, what it runs, and how many threads
/// it may use.
pub struct Coiner {
    log_file: String,
    run_coin: String,
    max_threads: u32,
}

impl Coiner {
    pub closed spec fn spec_log_file(&self) -> Seq<char> {
        self.log_file@
    }

    pub closed spec fn spec_run_coin(&self) -> Seq<char> {
        self.run_coin@
    }

    pub closed spec fn spec_max_threads(&self) -> u32 {
        self.max_threads
    }

    /// A run of `run_coin` with no log file and eight threads.
    pub fn new(run_coin: String) -> (r: Coiner)
        ensures
            r.spec_log_file() == Seq::<char>::empty(),
            r.spec_run_coin() == run_coin@,
            r.spec_max_threads() == 8,
    {
        Coiner { log_file: String::new(), run_coin, max_threads: 8 }
    }

    /// The file that the run logs to; empty when it has none.
    pub fn log_file(&self) -> (r: &String)
        ensures
            r@ == self.spec_log_file(),
    {
        &self.log_file
    }

    /// What the run runs.
    pub fn run_coin(&self) -> (r: &String)
        ensures
            r@ == self.spec_run_coin(),
    {
        &self.run_coin
    }

    /// How many threads the run may use.
    pub fn max_threads(&self) -> (r: u32)
        ensures
            r == self.spec_max_threads(),
    {
        self.max_threads
    }
}

} // verus!
