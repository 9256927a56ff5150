//! Network settings of the configuration file.

use vstd::prelude::*;

verus! {

/// The network section of the configuration.
#[derive(Debug, Clone, Copy, PartialEq, Eq, Structural, Hash)]
pub struct Network {
    /// Seconds to wait before trying to reconnect.
    pub reconnect_delay: u64,
}

impl Network {
    /// Reconnect after ten seconds.
    pub fn default() -> (n: Self)
        ensures
            n.reconnect_delay == 10,
    {
        Network { reconnect_delay: 10 }
    }
}

} // verus!
