//! The configuration the collection paths consume: the broker address and
//! the optional fan-speed reading sources. Loading it from the process
//! environment is the caller's concern.

use vstd::prelude::*;

verus! {

/// The settings a run is driven by. The fan-speed command takes precedence
/// over the fan-speed file where both are set.
#[derive(Debug, Clone, PartialEq, Eq)]
pub struct Config {
    pub broker_url: String,
    pub fan_speed_command: Option<String>,
    pub fan_speed_file: Option<String>,
}

} // verus!
