//! Application settings.

use vstd::prelude::*;

verus! {

/// The settings the application keeps between runs.
#[derive(Debug, Clone, PartialEq, Eq)]
pub struct AppConfig {
    pub url: String,
    pub file_path: String,
}

impl Default for AppConfig {
    /// Both settings start out empty.
    fn default() -> (config: Self)
        ensures
            config.url@ == Seq::<char>::empty(),
            config.file_path@ == Seq::<char>::empty(),
    {
        AppConfig { url: String::new(), file_path: String::new() }
    }
}

} // verus!
