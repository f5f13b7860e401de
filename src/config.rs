use vstd::prelude::*;

verus! {

/// Settings read from the optional configuration file.
#[derive(Clone, Copy, Debug, PartialEq, Eq, Structural)]
pub struct Configuration {
    pub log: Option<bool>,
}

impl Configuration {
    /// The settings used when the file is absent or cannot be parsed.
    pub open spec fn fallback() -> Configuration {
        Configuration { log: Some(true) }
    }

    pub fn default_config() -> (r: Configuration)
        ensures
            r == Configuration::fallback(),
    {
        Configuration { log: Some(true) }
    }
}

/// Picks the settings in force: what was parsed, if anything was, else the
/// fallback.
pub fn settle_config(parsed: Option<Configuration>) -> (r: Configuration)
    ensures
        parsed is Some ==> r == parsed->Some_0,
        parsed is None ==> r == Configuration::fallback(),
{
    match parsed {
        Some(c) => c,
        None => Configuration::default_config(),
    }
}

} // verus!
