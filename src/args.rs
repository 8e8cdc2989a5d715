use vstd::prelude::*;

verus! {

/// Command-line arguments of the previewer server.
pub struct Args {
    /// Path to the configuration file.
    pub config_file: String,
}

impl Args {
    /// Arguments that read the configuration from `config_file`.
    pub fn new(config_file: String) -> (r: Args)
        ensures
            r.config_file == config_file,
    {
        Args { config_file }
    }
}

} // verus!
