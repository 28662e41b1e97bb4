//! The presence entry of a cluster member.

use crate::clock::{now_ms, reading_ms, wall_clock_gives};
use crate::duration::Duration;
use std::collections::HashMap;
use vstd::prelude::*;

verus! {

#[derive(Debug, Clone)]
pub struct NodeInfo {
    pub node_id: String,
    pub address: String,
    /// Unix timestamp (ms) of the last successful heartbeat write.
    pub last_heartbeat_ms: u64,
    pub metadata: HashMap<String, String>,
}

/// A [`NodeInfo`] as contracts see it.
pub ghost struct NodeInfoView {
    pub node_id: Seq<char>,
    pub address: Seq<char>,
    pub last_heartbeat_ms: u64,
    pub metadata: Map<String, String>,
}

impl View for NodeInfo {
    type V = NodeInfoView;

    open spec fn view(&self) -> NodeInfoView {
        NodeInfoView {
            node_id: self.node_id@,
            address: self.address@,
            last_heartbeat_ms: self.last_heartbeat_ms,
            metadata: self.metadata@,
        }
    }
}

impl NodeInfoView {
    /// The node counts as alive at the time `now`: its last heartbeat is younger
    /// than `ttl`. A heartbeat stamped later than `now` has the age nought.
    pub open spec fn alive_at(self, ttl: Duration, now: u64) -> bool {
        ttl.millis_u64() > 0 && now < self.last_heartbeat_ms + ttl.millis_u64()
    }
}

impl NodeInfo {
    /// Whether the node counts as alive at the time `now`, in milliseconds since
    /// the Unix epoch.
    pub fn is_alive_at(&self, ttl: Duration, now: u64) -> (alive: bool)
        ensures
            alive == self@.alive_at(ttl, now),
    {
        now.saturating_sub(self.last_heartbeat_ms) < ttl.as_millis_u64()
    }

    /// Whether the node counts as alive at the time that the wall clock shows.
    pub fn is_alive(&self, ttl: Duration) -> (alive: bool)
        ensures
            exists|reading: Option<(u64, u32)>| #[trigger]
                wall_clock_gives(reading) && alive == self@.alive_at(ttl, reading_ms(reading)),
    {
        self.is_alive_at(ttl, now_ms())
    }
}

/// A node that has fallen silent stays dead until its entry is refreshed.
pub proof fn law_dead_stays_dead(node: NodeInfoView, ttl: Duration, now: u64, later: u64)
    requires
        !node.alive_at(ttl, now),
        now <= later,
    ensures
        !node.alive_at(ttl, later),
{
}

/// An entry is shown in contracts field by field as it is.
pub proof fn law_entry_is_shown_as_it_is(info: NodeInfo)
    ensures
        info@.node_id == info.node_id@,
        info@.address == info.address@,
        info@.last_heartbeat_ms == info.last_heartbeat_ms,
        info@.metadata == info.metadata@,
{
}

/// A node is alive exactly as long as its last heartbeat is less than the TTL ago; one
/// that is stamped later than now is no time ago.
pub proof fn law_alive_within_the_ttl(info: NodeInfo, ttl: Duration, now: u64, alive: bool)
    requires
        call_ensures(NodeInfo::is_alive_at, (&info, ttl, now), alive),
    ensures
        info.last_heartbeat_ms <= now ==> (alive <==> now - info.last_heartbeat_ms
            < ttl.millis_u64()),
        now < info.last_heartbeat_ms ==> (alive <==> ttl.millis_u64() > 0),
        alive == info@.alive_at(ttl, now),
{
}

/// Asked without a time, a node is alive exactly as long as its last heartbeat is less
/// than the TTL before the time that the wall clock gave.
pub proof fn law_alive_by_the_wall_clock(info: NodeInfo, ttl: Duration, alive: bool)
    requires
        call_ensures(NodeInfo::is_alive, (&info, ttl), alive),
    ensures
        exists|reading: Option<(u64, u32)>| #[trigger]
            wall_clock_gives(reading) && ({
                let now = reading_ms(reading);
                &&& info.last_heartbeat_ms <= now ==> (alive <==> now - info.last_heartbeat_ms
                    < ttl.millis_u64())
                &&& now < info.last_heartbeat_ms ==> (alive <==> ttl.millis_u64() > 0)
            }),
{
}

} // verus!
