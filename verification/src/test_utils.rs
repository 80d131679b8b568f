//! Settings for trying things out.

use vstd::prelude::*;
use crate::config::Config;

verus! {

/// The settings of a run for which nothing was asked on the command line.
pub fn build_config() -> (config: Config)
    ensures
        config == Config::spec_default(),
        config.valid(),
{
    Config::default()
}

} // verus!
