//! Program configuration.

use vstd::prelude::*;

verus! {

/// Program configuration: where the input record stream is read from.
pub struct Config {
    /// Path to the input file.
    pub input_file: String,
}

impl Config {
    /// Builds a configuration for the given input path.
    pub fn new(input_file: String) -> (r: Config)
        ensures
            r.input_file@ == input_file@,
    {
        Config { input_file }
    }
}

} // verus!
