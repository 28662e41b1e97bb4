//! Tuning parameters.

use crate::duration::{Duration, NANOS_PER_SEC};
use vstd::prelude::*;

verus! {

/// Tuning parameters for a [`LeaderElection`](crate::LeaderElection) participant.
#[derive(Debug, Clone)]
pub struct Config {
    /// How long the lockfile lease is valid without renewal.
    /// Must be significantly longer than `heartbeat_interval`.
    pub lease_duration: Duration,
    /// How often the current leader refreshes the lockfile.
    /// Rule of thumb: `lease_duration / 3`.
    pub heartbeat_interval: Duration,
    /// Lower bound of the randomized election timeout.
    pub election_timeout_min: Duration,
    /// Upper bound of the randomized election timeout.
    pub election_timeout_max: Duration,
    /// How often followers poll the lockfile while waiting for a leader.
    pub check_interval: Duration,
}

impl Config {
    /// The lower election timeout is not above the upper one, to the millisecond.
    pub open spec fn has_jitter_range(self) -> bool {
        self.election_timeout_min.millis_u64() <= self.election_timeout_max.millis_u64()
    }

    /// Whether the lower election timeout is not above the upper one, to the
    /// millisecond.
    pub fn jitter_range_is_valid(&self) -> (valid: bool)
        ensures
            valid == self.has_jitter_range(),
    {
        self.election_timeout_min.as_millis_u64() <= self.election_timeout_max.as_millis_u64()
    }
}

impl Default for Config {
    fn default() -> (config: Config)
        ensures
            config.lease_duration@ == 15 * NANOS_PER_SEC,
            config.heartbeat_interval@ == 5 * NANOS_PER_SEC,
            config.election_timeout_min@ == 10 * NANOS_PER_SEC,
            config.election_timeout_max@ == 20 * NANOS_PER_SEC,
            config.check_interval@ == 3 * NANOS_PER_SEC,
            config.has_jitter_range(),
    {
        Config {
            lease_duration: Duration::from_secs(15),
            heartbeat_interval: Duration::from_secs(5),
            election_timeout_min: Duration::from_secs(10),
            election_timeout_max: Duration::from_secs(20),
            check_interval: Duration::from_secs(3),
        }
    }
}

/// Tuning parameters for a [`DiscoveryService`](crate::DiscoveryService) member.
#[derive(Debug, Clone)]
pub struct DiscoveryConfig {
    /// Path prefix under which the members publish their presence.
    pub namespace: String,
    /// How often a member refreshes its own entry.
    pub heartbeat_interval: Duration,
    /// How long an entry counts as alive after its last refresh.
    pub node_ttl: Duration,
}

/// Election timeouts in order are always accepted; crossed ones only if they cross
/// within one millisecond, so that both have the same number of whole milliseconds.
pub proof fn law_jitter_range_is_to_the_millisecond(config: Config, valid: bool)
    requires
        call_ensures(Config::jitter_range_is_valid, (&config,), valid),
    ensures
        config.election_timeout_min@ <= config.election_timeout_max@ ==> valid,
        config.election_timeout_max@ < u64::MAX * 1_000_000 ==> (valid
            <==> config.election_timeout_min@ < (config.election_timeout_max@ / 1_000_000 + 1)
            * 1_000_000),
        config.election_timeout_max@ >= u64::MAX * 1_000_000 ==> valid,
        valid == config.has_jitter_range(),
{
}

} // verus!
