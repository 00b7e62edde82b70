//! Naming of the log sink.
use vstd::prelude::*;

verus! {

/// The application's logger; the sink itself is set up by the program.
pub struct Logger;

impl Logger {
    /// The name of the file that a log named `log_file` is written to.
    pub fn log_file_name(log_file: String) -> (r: String)
        ensures
            r@ == log_file@ + ".log"@,
    {
        log_file.concat(".log")
    }
}

} // verus!
