//! Who is in the cluster: each member keeps a presence entry in the object store
//! fresh, and lists the entries that are.

use crate::clock::{now_ms, reading_ms, wall_clock_gives};
use crate::config::DiscoveryConfig;
use crate::duration::Duration;
use crate::error::{Error, StoreError};
use crate::node::{NodeInfo, NodeInfoView};
use crate::path::{is_plain_path, object_path, path_join, to_object_path};
use std::collections::HashMap;
use vstd::prelude::*;
use vstd::string::*;

verus! {

/// The path under which the members of a namespace have their entries.
pub open spec fn nodes_path_of(namespace: Seq<char>) -> Seq<char> {
    object_path(namespace + "/nodes"@)
}

/// Where the members of the namespace have their entries.
pub fn nodes_path(config: &DiscoveryConfig) -> (path: String)
    ensures
        path@ == nodes_path_of(config.namespace@),
        path@ == path_join(object_path(config.namespace@), "nodes"@),
        is_plain_path(config.namespace@) ==> path@ == config.namespace@ + "/nodes"@,
{
    let raw: String = config.namespace.clone().concat("/nodes");
    proof {
        reveal_strlit("/nodes");
        reveal_strlit("nodes");
        assert("/nodes"@ =~= seq!['/'] + "nodes"@);
        assert(raw@ =~= config.namespace@ + seq!['/'] + "nodes"@);
        assert(is_plain_path("nodes"@));
    }
    to_object_path(raw)
}

/// Where the member with this id has its entry: under the namespace's nodes.
pub fn node_path(config: &DiscoveryConfig, node_id: &str) -> (path: String)
    ensures
        path@ == object_path(config.namespace@ + "/nodes/"@ + node_id@),
        path@ == path_join(nodes_path_of(config.namespace@), object_path(node_id@)),
        is_plain_path(config.namespace@) && is_plain_path(node_id@) ==> path@ == config.namespace@
            + "/nodes/"@ + node_id@,
{
    let raw: String = config.namespace.clone().concat("/nodes/").concat(node_id);
    proof {
        reveal_strlit("/nodes/");
        reveal_strlit("/nodes");
        assert("/nodes/"@ =~= "/nodes"@ + seq!['/']);
        assert(raw@ =~= (config.namespace@ + "/nodes"@) + seq!['/'] + node_id@);
        let n = config.namespace@.len() as int;
        if is_plain_path(config.namespace@) && is_plain_path(node_id@) {
            assert forall|i: int| 0 < i < raw@.len() && #[trigger] raw@[i] == '/' implies raw@[i
                - 1] != '/' by {
                if i < n {
                    assert(config.namespace@[i] == '/');
                } else if i >= n + 7 {
                    assert(node_id@[i - n - 7] == '/');
                }
            }
        }
    }
    to_object_path(raw)
}

/// The entry that a member writes at the time `now`.
pub open spec fn presence_stamped(
    node_id: Seq<char>,
    address: Seq<char>,
    metadata: Map<String, String>,
    now: u64,
) -> NodeInfoView {
    NodeInfoView { node_id, address, last_heartbeat_ms: now, metadata }
}

/// Makes out an entry that is stamped with the time that the wall clock shows, and
/// says where to write it.
pub fn write_presence(
    config: &DiscoveryConfig,
    node_id: &str,
    address: &str,
    metadata: &HashMap<String, String>,
) -> (entry: (String, NodeInfo))
    ensures
        entry.0@ == object_path(config.namespace@ + "/nodes/"@ + node_id@),
        exists|reading: Option<(u64, u32)>| #[trigger]
            wall_clock_gives(reading) && entry.1@ == presence_stamped(
                node_id@,
                address@,
                metadata@,
                reading_ms(reading),
            ),
{
    write_presence_at(config, node_id, address, metadata, now_ms())
}

/// Makes out an entry that is stamped with the time `now`, in milliseconds since
/// the Unix epoch, and says where to write it.
pub fn write_presence_at(
    config: &DiscoveryConfig,
    node_id: &str,
    address: &str,
    metadata: &HashMap<String, String>,
    now: u64,
) -> (entry: (String, NodeInfo))
    ensures
        entry.0@ == object_path(config.namespace@ + "/nodes/"@ + node_id@),
        entry.1@ == presence_stamped(node_id@, address@, metadata@, now),
{
    let info = NodeInfo {
        node_id: node_id.to_owned(),
        address: address.to_owned(),
        last_heartbeat_ms: now,
        metadata: metadata.clone(),
    };
    (node_path(config, node_id), info)
}

/// What writing an entry came to.
#[derive(Debug)]
pub enum WriteReply {
    /// The entry could not be put into writing, and nothing was sent.
    Unencodable(serde_json::Error),
    Failed(StoreError),
    Stored,
}

impl WriteReply {
    /// Why the entry was not written, if it was not.
    pub open spec fn failure(self) -> Option<Error> {
        match self {
            WriteReply::Unencodable(e) => Some(Error::Json(e)),
            WriteReply::Failed(e) => Some(Error::Store(e.cause())),
            WriteReply::Stored => None,
        }
    }
}

/// Takes the answer to the write of an entry.
pub fn presence_written(reply: WriteReply) -> (outcome: Result<(), Error>)
    ensures
        outcome == match reply.failure() {
            Some(e) => Err::<(), Error>(e),
            None => Ok(()),
        },
{
    match reply {
        WriteReply::Unencodable(e) => Err(Error::Json(e)),
        WriteReply::Failed(e) => Err(Error::Store(e.into_cause())),
        WriteReply::Stored => Ok(()),
    }
}

/// What asking for one entry after the other came to, entry by entry.
#[derive(Debug)]
pub enum ListEvent {
    /// The entries could not be listed any further.
    ListFailed(object_store::Error),
    /// The entry could not be asked for.
    GetFailed(StoreError),
    /// The entry's content could not be fetched.
    Unreadable(object_store::Error),
    /// The entry's content is no entry.
    Corrupt(serde_json::Error),
    Decoded(NodeInfo),
}

impl ListEvent {
    /// The failure that ends the listing, if this is one. An entry that was
    /// deleted since it was listed is none, nor is one whose content is no entry.
    pub open spec fn failure(self) -> Option<object_store::Error> {
        match self {
            ListEvent::ListFailed(e) => Some(e),
            ListEvent::GetFailed(StoreError::NotFound(_)) => None,
            ListEvent::GetFailed(e) => Some(e.cause()),
            ListEvent::Unreadable(e) => Some(e),
            ListEvent::Corrupt(_) => None,
            ListEvent::Decoded(_) => None,
        }
    }
}

/// The nodes that are listed after one more entry.
pub open spec fn list_more(nodes: Seq<NodeInfo>, event: ListEvent, ttl: Duration, now: u64) -> Seq<
    NodeInfo,
> {
    match event {
        ListEvent::Decoded(info) if info@.alive_at(ttl, now) => nodes.push(info),
        _ => nodes,
    }
}

/// `outcome` says whether the listing goes on after this event.
pub open spec fn list_goes_on(event: ListEvent, outcome: Result<(), Error>) -> bool {
    outcome == match event.failure() {
        Some(e) => Err::<(), Error>(Error::Store(e)),
        None => Ok(()),
    }
}

/// What a member's heartbeat meets.
#[derive(Debug)]
pub enum BeatEvent {
    /// A heartbeat interval is over.
    Due,
    /// What writing the entry came to.
    Written(WriteReply),
}

/// What a member's heartbeat does next.
#[derive(Debug)]
pub enum Beat {
    /// Write the entry at this path.
    Write(String, NodeInfo),
    /// Wait until this interval is over, counted from the last time that a write
    /// was due; the failure, if there is one, is for the log alone.
    Wait(Duration, Option<Error>),
}

/// A member of the cluster, which refreshes its entry every `heartbeat_interval`.
pub struct DiscoveryService {
    config: DiscoveryConfig,
    node_id: String,
    address: String,
    metadata: HashMap<String, String>,
}

/// A [`DiscoveryService`] as contracts see it.
pub ghost struct ServiceView {
    pub namespace: Seq<char>,
    pub heartbeat_interval: Duration,
    pub node_ttl: Duration,
    pub node_id: Seq<char>,
    pub address: Seq<char>,
    pub metadata: Map<String, String>,
}

impl View for DiscoveryService {
    type V = ServiceView;

    closed spec fn view(&self) -> ServiceView {
        ServiceView {
            namespace: self.config.namespace@,
            heartbeat_interval: self.config.heartbeat_interval,
            node_ttl: self.config.node_ttl,
            node_id: self.node_id@,
            address: self.address@,
            metadata: self.metadata@,
        }
    }
}

impl ServiceView {
    /// Where the member's entry is.
    pub open spec fn node_path(self) -> Seq<char> {
        object_path(self.namespace + "/nodes/"@ + self.node_id)
    }

    /// The member's entry as it is written at the time `now`.
    pub open spec fn presence(self, now: u64) -> NodeInfoView {
        presence_stamped(self.node_id, self.address, self.metadata, now)
    }

    /// `beat` is what the heartbeat does after the event, at the time `now`: it
    /// writes the entry when that is due, and waits once that has been tried,
    /// whatever it came to.
    pub open spec fn beats(self, event: BeatEvent, now: u64, beat: Beat) -> bool {
        match event {
            BeatEvent::Due => beat matches Beat::Write(path, info) && path@ == self.node_path()
                && info@ == self.presence(now),
            BeatEvent::Written(reply) => beat == Beat::Wait(
                self.heartbeat_interval,
                reply.failure(),
            ),
        }
    }
}

impl DiscoveryService {
    /// Register this node: `first_write` is what writing its first entry came to,
    /// which [`write_presence`] makes out. If that failed, there is no member.
    pub fn register(
        config: DiscoveryConfig,
        node_id: String,
        address: String,
        metadata: HashMap<String, String>,
        first_write: WriteReply,
    ) -> (outcome: Result<DiscoveryService, Error>)
        ensures
            match first_write.failure() {
                Some(e) => outcome == Err::<DiscoveryService, Error>(e),
                None => outcome matches Ok(service) && service@ == (ServiceView {
                    namespace: config.namespace@,
                    heartbeat_interval: config.heartbeat_interval,
                    node_ttl: config.node_ttl,
                    node_id: node_id@,
                    address: address@,
                    metadata: metadata@,
                }),
            },
    {
        match presence_written(first_write) {
            Ok(()) => Ok(DiscoveryService { config, node_id, address, metadata }),
            Err(e) => Err(e),
        }
    }

    pub fn node_id(&self) -> (node_id: &str)
        ensures
            node_id@ == self@.node_id,
    {
        self.node_id.as_str()
    }

    /// How often to refresh the entry.
    pub fn heartbeat_interval(&self) -> (interval: Duration)
        ensures
            interval == self@.heartbeat_interval,
    {
        self.config.heartbeat_interval
    }

    /// Keeps this member's presence fresh, at the time that the wall clock shows. A
    /// heartbeat starts by waiting for its interval; each call takes what came of
    /// the last step and says what is next.
    pub fn heartbeat(&self, event: BeatEvent) -> (beat: Beat)
        ensures
            exists|reading: Option<(u64, u32)>| #[trigger]
                wall_clock_gives(reading) && self@.beats(event, reading_ms(reading), beat),
    {
        self.heartbeat_at(event, now_ms())
    }

    /// Keeps this member's presence fresh, at the time `now`, in milliseconds since
    /// the Unix epoch.
    pub fn heartbeat_at(&self, event: BeatEvent, now: u64) -> (beat: Beat)
        ensures
            self@.beats(event, now, beat),
    {
        match event {
            BeatEvent::Due => {
                let (path, info) = write_presence_at(
                    &self.config,
                    self.node_id.as_str(),
                    self.address.as_str(),
                    &self.metadata,
                    now,
                );
                Beat::Write(path, info)
            },
            BeatEvent::Written(reply) => match presence_written(reply) {
                Ok(()) => Beat::Wait(self.config.heartbeat_interval, None),
                Err(e) => Beat::Wait(self.config.heartbeat_interval, Some(e)),
            },
        }
    }

    /// Where to look for entries.
    pub fn nodes_path(&self) -> (path: String)
        ensures
            path@ == nodes_path_of(self@.namespace),
            path@ == path_join(object_path(self@.namespace), "nodes"@),
    {
        nodes_path(&self.config)
    }

    /// Where this member's own entry is.
    pub fn node_path(&self) -> (path: String)
        ensures
            path@ == self@.node_path(),
            path@ == path_join(nodes_path_of(self@.namespace), object_path(self@.node_id)),
    {
        node_path(&self.config, self.node_id.as_str())
    }

    /// Gathers all nodes that have heartbeated within the configured TTL, entry by
    /// entry, each at the time that the wall clock then shows. The listing ends
    /// with an `Err`.
    pub fn list_nodes(&self, nodes: &mut Vec<NodeInfo>, event: ListEvent) -> (outcome: Result<
        (),
        Error,
    >)
        ensures
            exists|reading: Option<(u64, u32)>| #[trigger]
                wall_clock_gives(reading) && final(nodes)@ == list_more(
                    old(nodes)@,
                    event,
                    self@.node_ttl,
                    reading_ms(reading),
                ),
            list_goes_on(event, outcome),
    {
        self.list_nodes_at(nodes, event, now_ms())
    }

    /// Gathers the nodes that have heartbeated within the configured TTL at the
    /// time `now`, in milliseconds since the Unix epoch.
    pub fn list_nodes_at(&self, nodes: &mut Vec<NodeInfo>, event: ListEvent, now: u64) -> (outcome:
        Result<(), Error>)
        ensures
            final(nodes)@ == list_more(old(nodes)@, event, self@.node_ttl, now),
            list_goes_on(event, outcome),
    {
        match event {
            ListEvent::ListFailed(e) => Err(Error::Store(e)),
            ListEvent::GetFailed(StoreError::NotFound(_)) => Ok(()),
            ListEvent::GetFailed(e) => Err(Error::Store(e.into_cause())),
            ListEvent::Unreadable(e) => Err(Error::Store(e)),
            ListEvent::Corrupt(_) => Ok(()),
            ListEvent::Decoded(info) => {
                if info.is_alive_at(self.config.node_ttl, now) {
                    nodes.push(info);
                }
                Ok(())
            },
        }
    }

    /// Takes the answer to the request to delete a member's entry, with which it
    /// leaves the cluster. That there was none to delete is a failure.
    pub fn deregister(reply: Result<(), StoreError>) -> (outcome: Result<(), Error>)
        ensures
            outcome == match reply {
                Ok(()) => Ok::<(), Error>(()),
                Err(e) => Err(Error::Store(e.cause())),
            },
    {
        match reply {
            Ok(()) => Ok(()),
            Err(e) => Err(Error::Store(e.into_cause())),
        }
    }
}

/// The nodes that are listed after these events, each with the time at which it
/// is looked at.
pub open spec fn listed(events: Seq<(ListEvent, u64)>, ttl: Duration) -> Seq<NodeInfo>
    decreases events.len(),
{
    if events.len() == 0 {
        Seq::empty()
    } else {
        list_more(listed(events.drop_last(), ttl), events.last().0, ttl, events.last().1)
    }
}

/// A listing holds exactly the nodes that counted as alive when their entries
/// were looked at.
pub proof fn law_listing_holds_the_living(
    events: Seq<(ListEvent, u64)>,
    ttl: Duration,
    node: NodeInfo,
)
    ensures
        listed(events, ttl).contains(node) <==> exists|k: int|
            0 <= k < events.len() && #[trigger] events[k].0 == ListEvent::Decoded(node)
                && node@.alive_at(ttl, events[k].1),
    decreases events.len(),
{
    if events.len() > 0 {
        let before = events.drop_last();
        let (event, now) = events.last();
        law_listing_holds_the_living(before, ttl, node);
        let n = events.len() - 1;
        if listed(events, ttl).contains(node) {
            if listed(before, ttl).contains(node) {
                let k = choose|k: int|
                    0 <= k < before.len() && #[trigger] before[k].0 == ListEvent::Decoded(node)
                        && node@.alive_at(ttl, before[k].1);
                assert(events[k].0 == ListEvent::Decoded(node));
            } else {
                assert(events[n].0 == ListEvent::Decoded(node));
            }
        }
        if exists|k: int|
            0 <= k < events.len() && #[trigger] events[k].0 == ListEvent::Decoded(node)
                && node@.alive_at(ttl, events[k].1) {
            let k = choose|k: int|
                0 <= k < events.len() && #[trigger] events[k].0 == ListEvent::Decoded(node)
                    && node@.alive_at(ttl, events[k].1);
            let old_list = listed(before, ttl);
            if k < n {
                assert(before[k].0 == ListEvent::Decoded(node));
                let p = choose|p: int| 0 <= p < old_list.len() && old_list[p] == node;
                assert(listed(events, ttl)[p] == node);
            } else {
                assert(listed(events, ttl)[old_list.len() as int] == node);
            }
        }
    }
}

/// A node that no entry names is not listed.
proof fn lemma_unnamed_is_not_listed(
    events: Seq<(ListEvent, u64)>,
    ttl: Duration,
    node_id: Seq<char>,
    q: int,
)
    requires
        forall|j: int|
            0 <= j < events.len() ==> !((#[trigger] events[j]).0 matches ListEvent::Decoded(info)
                && info@.node_id == node_id),
        0 <= q < listed(events, ttl).len(),
    ensures
        listed(events, ttl)[q]@.node_id != node_id,
{
    let node = listed(events, ttl)[q];
    assert(listed(events, ttl).contains(node));
    law_listing_holds_the_living(events, ttl, node);
}

/// A member that has registered is listed: as long as its entry is younger than the
/// TTL when it is looked at, and no other entry names the same node, a listing
/// holds it exactly once, with the id, the address and the metadata that it
/// registered with.
pub proof fn law_registered_member_is_listed_once(
    member: ServiceView,
    written: u64,
    events: Seq<(ListEvent, u64)>,
    k: int,
    info: NodeInfo,
    ttl: Duration,
) -> (p: int)
    requires
        0 <= k < events.len(),
        events[k].0 == ListEvent::Decoded(info),
        info@ == member.presence(written),
        written <= events[k].1,
        events[k].1 - written < ttl.millis_u64(),
        forall|j: int|
            0 <= j < events.len() && j != k ==> !((
            #[trigger] events[j]).0 matches ListEvent::Decoded(other) && other@.node_id
                == member.node_id),
    ensures
        0 <= p < listed(events, ttl).len(),
        listed(events, ttl)[p]@ == member.presence(written),
        forall|q: int|
            0 <= q < listed(events, ttl).len() && (#[trigger] listed(events, ttl)[q])@.node_id
                == member.node_id ==> q == p,
    decreases events.len(),
{
    let before = events.drop_last();
    let n = events.len() - 1;
    assert forall|j: int| 0 <= j < before.len() implies before[j] == events[j] by {}
    if k == n {
        let p = listed(before, ttl).len() as int;
        assert forall|q: int|
            0 <= q < listed(events, ttl).len() && (#[trigger] listed(events, ttl)[q])@.node_id
                == member.node_id implies q == p by {
            if q < p {
                lemma_unnamed_is_not_listed(before, ttl, member.node_id, q);
            }
        }
        p
    } else {
        let p = law_registered_member_is_listed_once(member, written, before, k, info, ttl);
        assert forall|q: int|
            0 <= q < listed(events, ttl).len() && (#[trigger] listed(events, ttl)[q])@.node_id
                == member.node_id implies q == p by {
            if q < listed(before, ttl).len() {
                assert(listed(events, ttl)[q] == listed(before, ttl)[q]);
            } else {
                assert(events[n].0 matches ListEvent::Decoded(other) && other@.node_id
                    == member.node_id);
            }
        }
        p
    }
}

/// A heartbeat goes on whatever becomes of it: after each try at writing the entry
/// it waits for the heartbeat interval, and when that is over it writes the entry
/// again, at the same path, with the same id, address and metadata, stamped with the
/// time of that write. A failure is told to nobody but the log.
pub proof fn law_heartbeat_goes_on(
    member: ServiceView,
    first: u64,
    write: Beat,
    reply: WriteReply,
    tried: u64,
    pause: Beat,
    later: u64,
    rewrite: Beat,
)
    requires
        member.beats(BeatEvent::Due, first, write),
        member.beats(BeatEvent::Written(reply), tried, pause),
        member.beats(BeatEvent::Due, later, rewrite),
    ensures
        pause == Beat::Wait(member.heartbeat_interval, reply.failure()),
        write matches Beat::Write(path, info) && path@ == member.node_path() && info@
            == member.presence(first),
        rewrite matches Beat::Write(path, info) && path@ == member.node_path() && info@
            == member.presence(later),
{
}

/// A member whose entry was written within the TTL counts as alive.
pub proof fn law_fresh_presence_is_alive(
    node_id: Seq<char>,
    address: Seq<char>,
    metadata: Map<String, String>,
    ttl: Duration,
    written: u64,
    now: u64,
)
    requires
        written <= now,
    ensures
        presence_stamped(node_id, address, metadata, written).alive_at(ttl, now) <==> now - written
            < ttl.millis_u64(),
{
}

/// The write of an entry succeeds exactly when the entry was stored; otherwise the reason
/// is handed on, an error of the encoding or of the store.
pub proof fn law_write_of_an_entry_is_answered(reply: WriteReply, outcome: Result<(), Error>)
    requires
        call_ensures(presence_written, (reply,), outcome),
    ensures
        match reply {
            WriteReply::Stored => outcome is Ok,
            WriteReply::Unencodable(e) => outcome matches Err(Error::Json(cause)) && cause == e,
            WriteReply::Failed(StoreError::NotFound(e)) => outcome matches Err(Error::Store(cause))
                && cause == e,
            WriteReply::Failed(StoreError::AlreadyExists(e)) => outcome matches Err(
                Error::Store(cause),
            ) && cause == e,
            WriteReply::Failed(StoreError::Precondition(e)) => outcome matches Err(
                Error::Store(cause),
            ) && cause == e,
            WriteReply::Failed(StoreError::Other(e)) => outcome matches Err(Error::Store(cause))
                && cause == e,
        },
        reply.failure() == match outcome {
            Ok(()) => None::<Error>,
            Err(e) => Some(e),
        },
{
}

/// Entries lie under the nodes of their namespace, by the id of their node. Where
/// neither needs a change, that is the namespace, `nodes` and the id, with slashes
/// between, so that different members never share an entry.
pub proof fn law_entries_lie_under_their_namespace(
    config: &DiscoveryConfig,
    node_id: &str,
    all: String,
    own: String,
    other_id: &str,
    other: String,
)
    requires
        call_ensures(nodes_path, (config,), all),
        call_ensures(node_path, (config, node_id), own),
        call_ensures(node_path, (config, other_id), other),
    ensures
        all@ == path_join(object_path(config.namespace@), "nodes"@),
        own@ == path_join(all@, object_path(node_id@)),
        own@ == object_path(config.namespace@ + "/nodes/"@ + node_id@),
        is_plain_path(config.namespace@) ==> all@ == config.namespace@ + "/nodes"@,
        is_plain_path(config.namespace@) && is_plain_path(node_id@) ==> own@ == config.namespace@
            + "/nodes/"@ + node_id@,
        is_plain_path(config.namespace@) && is_plain_path(node_id@) && is_plain_path(other_id@)
            && own@ == other@ ==> node_id@ == other_id@,
{
    if is_plain_path(config.namespace@) && is_plain_path(node_id@) && is_plain_path(other_id@)
        && own@ == other@ {
        let front = config.namespace@ + "/nodes/"@;
        assert(own@ =~= front + node_id@);
        assert(other@ =~= front + other_id@);
        assert(own@.skip(front.len() as int) =~= node_id@);
        assert(other@.skip(front.len() as int) =~= other_id@);
    }
}

/// An entry says who the member is and how to reach it, and is stamped with the time
/// that it is made out at.
pub proof fn law_entry_says_who_and_when(
    config: &DiscoveryConfig,
    node_id: &str,
    address: &str,
    metadata: &HashMap<String, String>,
    now: u64,
    entry: (String, NodeInfo),
    path: String,
)
    requires
        call_ensures(write_presence_at, (config, node_id, address, metadata, now), entry),
        call_ensures(node_path, (config, node_id), path),
    ensures
        entry.0@ == path@,
        entry.1.node_id@ == node_id@,
        entry.1.address@ == address@,
        entry.1.metadata@ == metadata@,
        entry.1.last_heartbeat_ms == now,
{
}

/// Made out without a time, an entry is stamped with the one that the wall clock gave.
pub proof fn law_entry_is_stamped_by_the_wall_clock(
    config: &DiscoveryConfig,
    node_id: &str,
    address: &str,
    metadata: &HashMap<String, String>,
    entry: (String, NodeInfo),
    path: String,
)
    requires
        call_ensures(write_presence, (config, node_id, address, metadata), entry),
        call_ensures(node_path, (config, node_id), path),
    ensures
        entry.0@ == path@,
        entry.1.node_id@ == node_id@,
        entry.1.address@ == address@,
        entry.1.metadata@ == metadata@,
        exists|reading: Option<(u64, u32)>| #[trigger]
            wall_clock_gives(reading) && entry.1.last_heartbeat_ms == reading_ms(reading),
{
}

/// A node whose first entry was written is a member, with the identity and the
/// configuration that it registered with; otherwise there is no member but the reason.
pub proof fn law_member_is_who_registered(
    config: DiscoveryConfig,
    node_id: String,
    address: String,
    metadata: HashMap<String, String>,
    first_write: WriteReply,
    outcome: Result<DiscoveryService, Error>,
    reason: Result<(), Error>,
)
    requires
        call_ensures(
            DiscoveryService::register,
            (config, node_id, address, metadata, first_write),
            outcome,
        ),
        call_ensures(presence_written, (first_write,), reason),
    ensures
        match reason {
            Ok(()) => outcome matches Ok(member) && {
                &&& member@.namespace == config.namespace@
                &&& member@.heartbeat_interval == config.heartbeat_interval
                &&& member@.node_ttl == config.node_ttl
                &&& member@.node_id == node_id@
                &&& member@.address == address@
                &&& member@.metadata == metadata@
            },
            Err(e) => outcome matches Err(same) && same == e,
        },
{
}

/// A member tells what it registered with: its id, its interval, where its entry is and
/// where those of the others are.
pub proof fn law_member_tells_what_it_registered_with(
    member: DiscoveryService,
    node_id: &str,
    interval: Duration,
    all: String,
    own: String,
)
    requires
        call_ensures(DiscoveryService::node_id, (&member,), node_id),
        call_ensures(DiscoveryService::heartbeat_interval, (&member,), interval),
        call_ensures(DiscoveryService::nodes_path, (&member,), all),
        call_ensures(DiscoveryService::node_path, (&member,), own),
    ensures
        node_id@ == member@.node_id,
        interval == member@.heartbeat_interval,
        all@ == path_join(object_path(member@.namespace), "nodes"@),
        own@ == object_path(member@.namespace + "/nodes/"@ + member@.node_id),
        own@ == path_join(all@, object_path(member@.node_id)),
{
}

/// When a heartbeat is due the member's entry is written where it is: with the id, the
/// address and the metadata that it registered with, stamped with the time. After the
/// write the member waits for its interval, and what went wrong, if anything did, is
/// handed out for the log.
pub proof fn law_heartbeat_writes_what_was_registered(
    member: ServiceView,
    event: BeatEvent,
    now: u64,
    beat: Beat,
)
    requires
        member.beats(event, now, beat),
    ensures
        match event {
            BeatEvent::Due => beat matches Beat::Write(path, info) && {
                &&& path@ == object_path(member.namespace + "/nodes/"@ + member.node_id)
                &&& info.node_id@ == member.node_id
                &&& info.address@ == member.address
                &&& info.metadata@ == member.metadata
                &&& info.last_heartbeat_ms == now
            },
            BeatEvent::Written(reply) => beat matches Beat::Wait(interval, failure) && {
                &&& interval == member.heartbeat_interval
                &&& match reply {
                    WriteReply::Stored => failure is None,
                    WriteReply::Unencodable(e) => failure == Some(Error::Json(e)),
                    WriteReply::Failed(e) => failure == Some(Error::Store(e.cause())),
                }
            },
        },
{
}

/// A heartbeat does just that, at the time that it is given, or else at the one that
/// the wall clock gave.
pub proof fn law_heartbeat_is_taken_at_its_time(
    member: DiscoveryService,
    event: BeatEvent,
    now: u64,
    beat: Beat,
    by_the_clock: Beat,
)
    requires
        call_ensures(DiscoveryService::heartbeat_at, (&member, event, now), beat),
        call_ensures(DiscoveryService::heartbeat, (&member, event), by_the_clock),
    ensures
        event is Due ==> (beat matches Beat::Write(path, info) && {
            &&& path@ == object_path(member@.namespace + "/nodes/"@ + member@.node_id)
            &&& info.node_id@ == member@.node_id
            &&& info.address@ == member@.address
            &&& info.metadata@ == member@.metadata
            &&& info.last_heartbeat_ms == now
        }),
        event is Due ==> (by_the_clock matches Beat::Write(path, info) && {
            &&& path@ == object_path(member@.namespace + "/nodes/"@ + member@.node_id)
            &&& info.node_id@ == member@.node_id
            &&& info.address@ == member@.address
            &&& info.metadata@ == member@.metadata
            &&& exists|reading: Option<(u64, u32)>| #[trigger]
                wall_clock_gives(reading) && info.last_heartbeat_ms == reading_ms(reading)
        }),
        event is Written ==> (beat matches Beat::Wait(interval, _) && interval
            == member@.heartbeat_interval),
        event is Written ==> beat == by_the_clock,
        member@.beats(event, now, beat),
{
    let reading = choose|reading: Option<(u64, u32)>| #[trigger]
        wall_clock_gives(reading) && member@.beats(event, reading_ms(reading), by_the_clock);
    law_heartbeat_writes_what_was_registered(member@, event, now, beat);
    law_heartbeat_writes_what_was_registered(member@, event, reading_ms(reading), by_the_clock);
}

/// One more entry is listed, behind all that were, exactly when it is an entry whose
/// last heartbeat is less than the TTL ago; nothing that was listed is lost. A failure
/// to list, to ask for or to fetch an entry ends the listing with the reason; that an
/// entry is gone, or is none, does not.
pub proof fn law_listing_takes_the_living(
    member: DiscoveryService,
    nodes: &mut Vec<NodeInfo>,
    event: ListEvent,
    now: u64,
    outcome: Result<(), Error>,
)
    requires
        call_ensures(DiscoveryService::list_nodes_at, (&member, nodes, event, now), outcome),
    ensures
        ({
            let ttl = member@.node_ttl.millis_u64();
            match event {
                ListEvent::Decoded(info) => if ttl > 0 && now < info.last_heartbeat_ms + ttl {
                    final(nodes)@ == old(nodes)@ + seq![info]
                } else {
                    final(nodes)@ == old(nodes)@
                },
                _ => final(nodes)@ == old(nodes)@,
            }
        }),
        match event {
            ListEvent::ListFailed(e) => outcome matches Err(Error::Store(cause)) && cause == e,
            ListEvent::GetFailed(StoreError::NotFound(_)) => outcome is Ok,
            ListEvent::GetFailed(StoreError::AlreadyExists(e)) => outcome matches Err(
                Error::Store(cause),
            ) && cause == e,
            ListEvent::GetFailed(StoreError::Precondition(e)) => outcome matches Err(
                Error::Store(cause),
            ) && cause == e,
            ListEvent::GetFailed(StoreError::Other(e)) => outcome matches Err(Error::Store(cause))
                && cause == e,
            ListEvent::Unreadable(e) => outcome matches Err(Error::Store(cause)) && cause == e,
            ListEvent::Corrupt(_) => outcome is Ok,
            ListEvent::Decoded(_) => outcome is Ok,
        },
{
    if let ListEvent::Decoded(info) = event {
        assert(old(nodes)@.push(info) =~= old(nodes)@ + seq![info]);
    }
}

/// A listing without a time takes those that live at the time that the wall clock gave,
/// and ends on the same failures.
pub proof fn law_listing_goes_by_the_wall_clock(
    member: DiscoveryService,
    nodes: &mut Vec<NodeInfo>,
    event: ListEvent,
    outcome: Result<(), Error>,
)
    requires
        call_ensures(DiscoveryService::list_nodes, (&member, nodes, event), outcome),
    ensures
        exists|reading: Option<(u64, u32)>| #[trigger]
            wall_clock_gives(reading) && ({
                let ttl = member@.node_ttl.millis_u64();
                match event {
                    ListEvent::Decoded(info) => if ttl > 0 && reading_ms(reading)
                        < info.last_heartbeat_ms + ttl {
                        final(nodes)@ == old(nodes)@ + seq![info]
                    } else {
                        final(nodes)@ == old(nodes)@
                    },
                    _ => final(nodes)@ == old(nodes)@,
                }
            }),
        match event {
            ListEvent::ListFailed(e) => outcome matches Err(Error::Store(cause)) && cause == e,
            ListEvent::GetFailed(StoreError::NotFound(_)) => outcome is Ok,
            ListEvent::GetFailed(e) => outcome matches Err(Error::Store(cause)) && cause
                == e.cause(),
            ListEvent::Unreadable(e) => outcome matches Err(Error::Store(cause)) && cause == e,
            ListEvent::Corrupt(_) => outcome is Ok,
            ListEvent::Decoded(_) => outcome is Ok,
        },
{
    let reading = choose|reading: Option<(u64, u32)>| #[trigger]
        wall_clock_gives(reading) && final(nodes)@ == list_more(
            old(nodes)@,
            event,
            member@.node_ttl,
            reading_ms(reading),
        );
    if let ListEvent::Decoded(info) = event {
        assert(old(nodes)@.push(info) =~= old(nodes)@ + seq![info]);
    }
}

/// A member has left exactly when its entry was deleted; otherwise there is the reason,
/// that there was no entry among them.
pub proof fn law_member_leaves_with_its_entry(
    reply: Result<(), StoreError>,
    outcome: Result<(), Error>,
)
    requires
        call_ensures(DiscoveryService::deregister, (reply,), outcome),
    ensures
        match reply {
            Ok(()) => outcome is Ok,
            Err(StoreError::NotFound(e)) => outcome matches Err(Error::Store(cause)) && cause == e,
            Err(StoreError::AlreadyExists(e)) => outcome matches Err(Error::Store(cause)) && cause
                == e,
            Err(StoreError::Precondition(e)) => outcome matches Err(Error::Store(cause)) && cause
                == e,
            Err(StoreError::Other(e)) => outcome matches Err(Error::Store(cause)) && cause == e,
        },
{
}

} // verus!
