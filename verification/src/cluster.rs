//! Many participants around one lockfile: what the conditional writes of the
//! store make of their steps, and why that is an election.
//!
//! The store is taken to serve requests one at a time and to hold a write to its
//! condition; an ETag stands for one content only. Node ids are taken to be unique,
//! a node to run once at a time, and a history to begin before the first lockfile was
//! written, with every node that ever takes part; one that joins late has its first
//! request served late. Nothing else is taken for granted: requests are
//! served late, or after their sender has given up on them or has crashed, and then
//! perhaps more than once; answers get lost; nodes restart, with the address, the
//! metadata and the configuration that they had or with others; clocks show anything.

use crate::election::{ActionView, ElectionView, EventView, PhaseView, PutModeView};
use crate::lease::LeaseView;
use vstd::prelude::*;

verus! {

/// A write that is on its way to the store.
pub ghost struct Write {
    pub lease: LeaseView,
    pub mode: PutModeView,
}

/// What stands between a participant and its next event.
pub ghost enum Channel {
    Sleeping,
    /// The request has not been served yet.
    Sent(ActionView),
    /// The answer has not been delivered yet.
    Answered(EventView),
}

pub open spec fn channel_of(action: ActionView) -> Channel {
    match action {
        ActionView::Sleep(_) => Channel::Sleeping,
        _ => Channel::Sent(action),
    }
}

/// A store with one lockfile, and the nodes that run for it.
pub ghost struct Cluster {
    pub nodes: Seq<ElectionView>,
    pub channels: Seq<Channel>,
    /// The lockfile's lease and ETag.
    pub lockfile: Option<(LeaseView, Seq<char>)>,
    /// Every lease that was ever written to the lockfile, by its ETag.
    pub written: Map<Seq<char>, LeaseView>,
    /// Writes whose sender does not wait for them any more.
    pub stray: Set<Write>,
    /// The lockfile has been deleted at some time.
    pub resigned: bool,
}

/// Something that happens in a cluster.
pub ghost enum Move {
    /// The store serves the request of a node; a version that is written gets
    /// this ETag.
    Serve(int, Seq<char>),
    /// The store serves a write that nobody waits for.
    ServeStray(Write, Seq<char>),
    /// A node takes its request to have failed.
    Fail(int),
    /// A node gets its answer, or wakes up, at this time of its clock.
    Deliver(int, u64),
    /// A node starts anew, as this one.
    Restart(int, ElectionView),
    /// Someone deletes the lockfile.
    Resign,
    /// A leader learns that the lockfile was deleted at its request.
    StandDown(int),
}

impl Cluster {
    pub open spec fn has_node(self, i: int) -> bool {
        0 <= i < self.nodes.len()
    }

    /// A cluster whose nodes have just started, around a store without a lockfile.
    /// Node ids are unique.
    pub open spec fn init(self) -> bool {
        &&& self.channels == Seq::new(self.nodes.len(), |i: int| Channel::Sent(ActionView::Read))
        &&& forall|i: int| self.has_node(i) ==> just_started(#[trigger] self.nodes[i])
        &&& forall|i: int, j: int|
            self.has_node(i) && self.has_node(j) && i != j ==> (#[trigger] self.nodes[i]).node_id
                != (#[trigger] self.nodes[j]).node_id
        &&& self.lockfile is None
        &&& self.written == Map::<Seq<char>, LeaseView>::empty()
        &&& self.stray == Set::<Write>::empty()
        &&& !self.resigned
    }

    /// The condition of a write holds.
    pub open spec fn admits(self, mode: PutModeView) -> bool {
        match mode {
            PutModeView::Create => self.lockfile is None,
            PutModeView::Update(etag) => self.lockfile matches Some((_, current)) && current
                == etag,
        }
    }

    /// The cluster after the store has served a write, under this ETag.
    pub open spec fn store(self, write: Write, etag: Seq<char>) -> Cluster {
        if self.admits(write.mode) {
            Cluster {
                lockfile: Some((write.lease, etag)),
                written: self.written.insert(etag, write.lease),
                ..self
            }
        } else {
            self
        }
    }

    /// The store may give this ETag to the lease: it stands for no other.
    pub open spec fn may_tag(self, lease: LeaseView, etag: Seq<char>) -> bool {
        self.written.contains_key(etag) ==> self.written[etag] == lease
    }

    /// The writes that nobody waits for once node `i` waits no more for its own.
    pub open spec fn abandon(self, i: int) -> Set<Write> {
        match self.channels[i] {
            Channel::Sent(ActionView::Put(lease, mode)) => self.stray.insert(Write { lease, mode }),
            _ => self.stray,
        }
    }

    pub open spec fn enabled(self, m: Move) -> bool {
        match m {
            Move::Serve(i, etag) => self.has_node(i) && match self.channels[i] {
                Channel::Sent(ActionView::Put(lease, _)) => self.may_tag(lease, etag),
                Channel::Sent(_) => true,
                _ => false,
            },
            Move::ServeStray(write, etag) => self.stray.contains(write) && self.may_tag(
                write.lease,
                etag,
            ),
            Move::Fail(i) => self.has_node(i) && !(self.channels[i] is Sleeping),
            Move::Deliver(i, _) => self.has_node(i) && !(self.channels[i] is Sent),
            Move::Restart(i, node) => self.has_node(i) && is_restart_of(node, self.nodes[i]),
            Move::Resign => true,
            Move::StandDown(i) => self.leads(i) && self.resigned,
        }
    }

    pub open spec fn next(self, m: Move) -> Cluster {
        match m {
            Move::Serve(i, etag) => match self.channels[i] {
                Channel::Sent(ActionView::Put(lease, mode)) => {
                    let answer = if self.admits(mode) {
                        EventView::Written(etag)
                    } else {
                        EventView::PutFailed
                    };
                    Cluster {
                        channels: self.channels.update(i, Channel::Answered(answer)),
                        ..self.store(Write { lease, mode }, etag)
                    }
                },
                _ => {
                    let answer = match self.lockfile {
                        Some((lease, current)) => EventView::Present(lease, current),
                        None => EventView::Absent,
                    };
                    Cluster {
                        channels: self.channels.update(i, Channel::Answered(answer)),
                        ..self
                    }
                },
            },
            Move::ServeStray(write, etag) => self.store(write, etag),
            Move::Fail(i) => {
                let failure = if self.nodes[i].phase is Reading {
                    EventView::ReadFailed
                } else {
                    EventView::PutFailed
                };
                Cluster {
                    channels: self.channels.update(i, Channel::Answered(failure)),
                    stray: self.abandon(i),
                    ..self
                }
            },
            Move::Deliver(i, now) => {
                let event = match self.channels[i] {
                    Channel::Answered(event) => event,
                    _ => EventView::Slept,
                };
                let (node, step) = self.nodes[i].next(event, now);
                Cluster {
                    nodes: self.nodes.update(i, node),
                    channels: self.channels.update(i, channel_of(step.action)),
                    ..self
                }
            },
            Move::Restart(i, node) => Cluster {
                nodes: self.nodes.update(i, node),
                channels: self.channels.update(i, Channel::Sent(ActionView::Read)),
                stray: self.abandon(i),
                ..self
            },
            Move::Resign => Cluster { lockfile: None, resigned: true, ..self },
            Move::StandDown(i) => {
                let (node, step) = self.nodes[i].step_down();
                Cluster {
                    nodes: self.nodes.update(i, node),
                    channels: self.channels.update(i, channel_of(step.action)),
                    stray: self.abandon(i),
                    ..self
                }
            },
        }
    }

    /// Something happens that leads from here to `after`.
    pub open spec fn leads_to(self, after: Cluster) -> bool {
        exists|m: Move| #[trigger] self.enabled(m) && after == self.next(m)
    }

    /// Node `i` waits for this lease to be written.
    pub open spec fn sends(self, i: int, lease: LeaseView) -> bool {
        &&& self.has_node(i)
        &&& self.channels[i] matches Channel::Sent(ActionView::Put(sent, _)) && sent == lease
    }

    /// Node `i` leads.
    pub open spec fn leads(self, i: int) -> bool {
        self.has_node(i) && self.nodes[i].role is Leader
    }

    /// Node `i` leads by the lease that is in the lockfile.
    pub open spec fn holds_lockfile(self, i: int) -> bool {
        &&& self.leads(i)
        &&& self.lockfile matches Some((_, etag)) && self.nodes[i].current_etag == Some(etag)
    }
}

pub open spec fn just_started(node: ElectionView) -> bool {
    node == ElectionView::initial(
        node.lock_path,
        node.config,
        node.node_id,
        node.address,
        node.metadata,
    )
}

/// The node has just started, under the id that `before` had and for the same
/// lockfile. Its address, its metadata and its configuration may be others.
pub open spec fn is_restart_of(node: ElectionView, before: ElectionView) -> bool {
    &&& just_started(node)
    &&& node.node_id == before.node_id
    &&& node.lock_path == before.lock_path
}

/// What follows on this point of a history is something that can happen there.
pub open spec fn goes_on(run: Seq<Cluster>, k: int) -> bool {
    run[k].leads_to(run[k + 1])
}

/// The history of a cluster from its start on.
pub open spec fn is_run(run: Seq<Cluster>) -> bool {
    &&& run.len() > 0
    &&& run[0].init()
    &&& forall|k: int| 0 <= k < run.len() - 1 ==> #[trigger] goes_on(run, k)
}

// What holds throughout a run

/// The highest term that the lockfile has had, as long as it is never deleted.
spec fn top_term(lockfile: Option<(LeaseView, Seq<char>)>) -> nat {
    match lockfile {
        Some((lease, _)) => lease.term,
        None => 0,
    }
}

/// The lease tells who the node is and how to reach it.
pub open spec fn is_from(lease: LeaseView, node: ElectionView) -> bool {
    &&& lease.node_id == node.node_id
    &&& lease.address == node.address
    &&& lease.metadata == node.metadata
}

/// The version was written by the node with this id.
spec fn authored(written: Map<Seq<char>, LeaseView>, etag: Seq<char>, node_id: Seq<char>) -> bool {
    written.contains_key(etag) && written[etag].node_id == node_id
}

/// A write that replaces a version comes from its author, in no lower term, or
/// is of a higher term.
spec fn is_rightful(written: Map<Seq<char>, LeaseView>, write: Write) -> bool {
    write.mode matches PutModeView::Update(etag) ==> {
        &&& written.contains_key(etag)
        &&& {
            ||| write.lease.term > written[etag].term
            ||| write.lease.term >= written[etag].term && write.lease.node_id
                == written[etag].node_id
        }
    }
}

spec fn channel_ok(
    node: ElectionView,
    channel: Channel,
    written: Map<Seq<char>, LeaseView>,
    resigned: bool,
) -> bool {
    match channel {
        Channel::Sleeping => node.awaits(EventView::Slept),
        Channel::Sent(ActionView::Read) => node.phase is Reading,
        Channel::Sent(ActionView::Sleep(_)) => false,
        Channel::Sent(ActionView::Put(lease, mode)) => {
            &&& node.awaits(EventView::PutFailed)
            &&& is_from(lease, node)
            &&& lease.term == pending_term(node)
            &&& is_rightful(written, Write { lease, mode })
            &&& node.phase is Renewing ==> mode == PutModeView::Update(node.current_etag->0)
            &&& node.phase is Acquiring ==> (mode matches PutModeView::Update(etag) ==> lease.term
                > written[etag].term)
        },
        Channel::Answered(EventView::Present(lease, etag)) => {
            &&& node.phase is Reading
            &&& written.contains_key(etag)
            &&& written[etag] == lease
            &&& !resigned ==> node.term <= lease.term
        },
        Channel::Answered(EventView::Written(etag)) => {
            &&& node.awaits(EventView::PutFailed)
            &&& authored(written, etag, node.node_id)
            &&& written[etag].term == pending_term(node)
        },
        Channel::Answered(EventView::Slept) => false,
        Channel::Answered(event) => node.awaits(event),
    }
}

/// The term of the write that the node waits for.
spec fn pending_term(node: ElectionView) -> nat {
    match node.phase {
        PhaseView::Acquiring(new_term) => new_term,
        _ => node.term,
    }
}

spec fn node_ok(
    node: ElectionView,
    channel: Channel,
    written: Map<Seq<char>, LeaseView>,
    top: nat,
    resigned: bool,
) -> bool {
    &&& node.wf()
    &&& channel_ok(node, channel, written, resigned)
    &&& node.current_etag matches Some(etag) ==> {
        &&& authored(written, etag, node.node_id)
        &&& written[etag].term <= node.term
        &&& !resigned ==> written[etag].term == node.term
    }
    &&& node.phase matches PhaseView::Jittering(Some(etag)) ==> {
        &&& written.contains_key(etag)
        &&& written[etag].term <= node.term
    }
    &&& !resigned ==> node.term <= top
}

impl Cluster {
    /// Each term was written by one node, and the lockfile is of the last one.
    spec fn history_ok(self) -> bool {
        &&& forall|etag: Seq<char>| #[trigger]
            self.written.contains_key(etag) ==> {
                &&& self.lockfile matches Some((lease, _))
                &&& self.written[etag].term <= lease.term
                &&& self.written[etag].term == lease.term ==> self.written[etag].node_id
                    == lease.node_id
            }
        &&& forall|a: Seq<char>, b: Seq<char>| #[trigger]
            self.written.contains_key(a) && #[trigger] self.written.contains_key(b)
                && self.written[a].term == self.written[b].term ==> self.written[a].node_id
                == self.written[b].node_id
    }

    spec fn inv(self) -> bool {
        &&& self.channels.len() == self.nodes.len()
        &&& forall|i: int, j: int|
            self.has_node(i) && self.has_node(j) && i != j ==> (#[trigger] self.nodes[i]).node_id
                != (#[trigger] self.nodes[j]).node_id
        &&& forall|i: int| #[trigger] self.has_node(i) ==> self.node_ok_at(i)
        &&& self.lockfile matches Some((lease, etag)) ==> self.written.contains_key(etag)
            && self.written[etag] == lease
        &&& forall|write: Write| #[trigger]
            self.stray.contains(write) ==> is_rightful(self.written, write)
        &&& !self.resigned ==> self.history_ok()
    }

    spec fn node_ok_at(self, i: int) -> bool {
        node_ok(
            self.nodes[i],
            self.channels[i],
            self.written,
            top_term(self.lockfile),
            self.resigned,
        )
    }
}

/// What is known of a node stays true as more is written.
proof fn lemma_node_ok_grows(
    node: ElectionView,
    channel: Channel,
    written: Map<Seq<char>, LeaseView>,
    top: nat,
    resigned: bool,
    written_after: Map<Seq<char>, LeaseView>,
    top_after: nat,
    resigned_after: bool,
)
    requires
        node_ok(node, channel, written, top, resigned),
        forall|etag: Seq<char>| #[trigger]
            written.contains_key(etag) ==> written_after.contains_key(etag) && written_after[etag]
                == written[etag],
        resigned ==> resigned_after,
        !resigned_after ==> top <= top_after,
    ensures
        node_ok(node, channel, written_after, top_after, resigned_after),
{
}

/// The store serves a rightful write.
proof fn lemma_store_keeps_inv(c: Cluster, write: Write, etag: Seq<char>)
    requires
        c.inv(),
        is_rightful(c.written, write),
        c.may_tag(write.lease, etag),
    ensures
        c.store(write, etag).inv(),
{
    let after = c.store(write, etag);
    if c.admits(write.mode) {
        if !c.resigned {
            assert(top_term(c.lockfile) <= write.lease.term);
            assert(after.history_ok());
        }
        assert forall|i: int| #[trigger] after.has_node(i) implies after.node_ok_at(i) by {
            assert(c.has_node(i));
            lemma_node_ok_grows(
                c.nodes[i],
                c.channels[i],
                c.written,
                top_term(c.lockfile),
                c.resigned,
                after.written,
                top_term(after.lockfile),
                after.resigned,
            );
        }
        assert forall|w: Write| #[trigger] after.stray.contains(w) implies is_rightful(
            after.written,
            w,
        ) by {
            assert(c.stray.contains(w));
        }
    }
}

/// One node and its channel change, and nothing else but the stray writes.
proof fn lemma_local_move_keeps_inv(c: Cluster, after: Cluster, i: int)
    requires
        c.inv(),
        c.has_node(i),
        after.nodes.len() == c.nodes.len(),
        after.channels.len() == c.channels.len(),
        forall|j: int| #[trigger]
            c.has_node(j) && j != i ==> after.nodes[j] == c.nodes[j] && after.channels[j]
                == c.channels[j],
        after.nodes[i].node_id == c.nodes[i].node_id,
        after.node_ok_at(i),
        after.lockfile == c.lockfile,
        after.written == c.written,
        after.resigned == c.resigned,
        forall|w: Write| #[trigger] after.stray.contains(w) ==> is_rightful(c.written, w),
    ensures
        after.inv(),
{
    assert forall|j: int| #[trigger] after.has_node(j) implies after.node_ok_at(j) by {
        assert(c.has_node(j));
    }
    assert forall|j: int, k: int|
        after.has_node(j) && after.has_node(k) && j != k implies (
    #[trigger] after.nodes[j]).node_id != (#[trigger] after.nodes[k]).node_id by {
        assert(c.has_node(j) && c.has_node(k));
        assert(c.nodes[j].node_id != c.nodes[k].node_id);
    }
}

proof fn lemma_abandoned_is_rightful(c: Cluster, i: int)
    requires
        c.inv(),
        c.has_node(i),
    ensures
        forall|w: Write| #[trigger] c.abandon(i).contains(w) ==> is_rightful(c.written, w),
{
    assert(c.node_ok_at(i));
}

proof fn lemma_serve_keeps_inv(c: Cluster, i: int, etag: Seq<char>)
    requires
        c.inv(),
        c.enabled(Move::Serve(i, etag)),
    ensures
        c.next(Move::Serve(i, etag)).inv(),
{
    let after = c.next(Move::Serve(i, etag));
    assert(c.node_ok_at(i));
    match c.channels[i] {
        Channel::Sent(ActionView::Put(lease, mode)) => {
            let write = Write { lease, mode };
            lemma_store_keeps_inv(c, write, etag);
            let stored = c.store(write, etag);
            assert(stored.has_node(i));
            assert(stored.node_ok_at(i));
            lemma_local_move_keeps_inv(stored, after, i);
        },
        _ => {
            lemma_local_move_keeps_inv(c, after, i);
        },
    }
}

proof fn lemma_deliver_keeps_inv(c: Cluster, i: int, now: u64)
    requires
        c.inv(),
        c.enabled(Move::Deliver(i, now)),
    ensures
        c.next(Move::Deliver(i, now)).inv(),
{
    let after = c.next(Move::Deliver(i, now));
    assert(c.node_ok_at(i));
    assert(after.node_ok_at(i));
    lemma_local_move_keeps_inv(c, after, i);
}

proof fn lemma_move_keeps_inv(c: Cluster, m: Move)
    requires
        c.inv(),
        c.enabled(m),
    ensures
        c.next(m).inv(),
{
    let after = c.next(m);
    match m {
        Move::Serve(i, etag) => lemma_serve_keeps_inv(c, i, etag),
        Move::ServeStray(write, etag) => lemma_store_keeps_inv(c, write, etag),
        Move::Fail(i) => {
            assert(c.node_ok_at(i));
            lemma_abandoned_is_rightful(c, i);
            lemma_local_move_keeps_inv(c, after, i);
        },
        Move::Deliver(i, now) => lemma_deliver_keeps_inv(c, i, now),
        Move::Restart(i, _) => {
            assert(c.node_ok_at(i));
            lemma_abandoned_is_rightful(c, i);
            lemma_local_move_keeps_inv(c, after, i);
        },
        Move::StandDown(i) => {
            assert(c.node_ok_at(i));
            lemma_abandoned_is_rightful(c, i);
            lemma_local_move_keeps_inv(c, after, i);
        },
        Move::Resign => {
            assert forall|i: int| #[trigger] after.has_node(i) implies after.node_ok_at(i) by {
                assert(c.has_node(i));
                lemma_node_ok_grows(
                    c.nodes[i],
                    c.channels[i],
                    c.written,
                    top_term(c.lockfile),
                    c.resigned,
                    after.written,
                    top_term(after.lockfile),
                    after.resigned,
                );
            }
        },
    }
}

/// What holds throughout a run holds at each point of it.
proof fn lemma_run_inv(run: Seq<Cluster>, k: int)
    requires
        is_run(run),
        0 <= k < run.len(),
    ensures
        run[k].inv(),
    decreases k,
{
    if k == 0 {
        let c = run[0];
        assert forall|i: int| #[trigger] c.has_node(i) implies c.node_ok_at(i) by {
            assert(just_started(c.nodes[i]));
        }
    } else {
        lemma_run_inv(run, k - 1);
        assert(goes_on(run, k - 1));
        let m = choose|m: Move| #[trigger] run[k - 1].enabled(m) && run[k] == run[k - 1].next(m);
        lemma_move_keeps_inv(run[k - 1], m);
    }
}

/// What was written stays known, and a deletion is not forgotten.
proof fn lemma_history_grows(run: Seq<Cluster>, k: int, l: int)
    requires
        is_run(run),
        0 <= k <= l < run.len(),
    ensures
        forall|etag: Seq<char>| #[trigger]
            run[k].written.contains_key(etag) ==> run[l].written.contains_key(etag)
                && run[l].written[etag] == run[k].written[etag],
        run[k].resigned ==> run[l].resigned,
        run[l].nodes.len() == run[k].nodes.len(),
        forall|i: int| #[trigger]
            run[k].has_node(i) ==> run[l].nodes[i].node_id == run[k].nodes[i].node_id,
    decreases l - k,
{
    if k < l {
        lemma_history_grows(run, k, l - 1);
        assert(goes_on(run, l - 1));
    }
}

/// A node has sent this lease by then.
spec fn was_sent(run: Seq<Cluster>, k: int, lease: LeaseView) -> bool {
    exists|m: int, i: int| 0 <= m <= k && #[trigger] run[m].sends(i, lease)
}

/// What is written, or still may be, has been sent by a node.
proof fn lemma_written_was_sent(run: Seq<Cluster>, k: int)
    requires
        is_run(run),
        0 <= k < run.len(),
    ensures
        forall|etag: Seq<char>| #[trigger]
            run[k].written.contains_key(etag) ==> was_sent(run, k, run[k].written[etag]),
        forall|w: Write| #[trigger] run[k].stray.contains(w) ==> was_sent(run, k, w.lease),
    decreases k,
{
    if k > 0 {
        let c = run[k - 1];
        lemma_written_was_sent(run, k - 1);
        assert(goes_on(run, k - 1));
        let m = choose|m: Move| #[trigger] c.enabled(m) && run[k] == c.next(m);
        assert forall|lease: LeaseView| was_sent(run, k - 1, lease) implies #[trigger] was_sent(
            run,
            k,
            lease,
        ) by {
            let (n, i) = choose|n: int, i: int| 0 <= n <= k - 1 && #[trigger] run[n].sends(i, lease);
            assert(run[n].sends(i, lease));
        }
        assert forall|i: int, lease: LeaseView| #[trigger] c.sends(i, lease) implies was_sent(
            run,
            k,
            lease,
        ) by {
            assert(run[k - 1].sends(i, lease));
        }
        assert forall|etag: Seq<char>| #[trigger] run[k].written.contains_key(etag) implies was_sent(
            run,
            k,
            run[k].written[etag],
        ) by {
            if c.written.contains_key(etag) && c.written[etag] == run[k].written[etag] {
                assert(was_sent(run, k - 1, c.written[etag]));
            } else if let Move::Serve(i, _) = m {
                assert(c.sends(i, run[k].written[etag]));
            } else if let Move::ServeStray(write, _) = m {
                assert(c.stray.contains(write));
                assert(was_sent(run, k - 1, write.lease));
            }
        }
        assert forall|w: Write| #[trigger] run[k].stray.contains(w) implies was_sent(
            run,
            k,
            w.lease,
        ) by {
            if c.stray.contains(w) {
                assert(was_sent(run, k - 1, w.lease));
            } else {
                match m {
                    Move::Fail(i) => assert(c.sends(i, w.lease)),
                    Move::Restart(i, _) => assert(c.sends(i, w.lease)),
                    Move::StandDown(i) => assert(c.sends(i, w.lease)),
                    _ => {},
                }
            }
        }
    }
}

/// Two nodes never lead by the same lease. So, whatever crashes, delays and
/// clocks do, at most one node leads by the lease that is in the lockfile, and
/// only that one can renew it.
pub proof fn law_one_node_holds_the_lockfile(run: Seq<Cluster>, k: int, i: int, j: int)
    requires
        is_run(run),
        0 <= k < run.len(),
        run[k].leads(i),
        run[k].leads(j),
    ensures
        run[k].nodes[i].current_etag == run[k].nodes[j].current_etag ==> i == j,
        run[k].holds_lockfile(i) && run[k].holds_lockfile(j) ==> i == j,
{
    lemma_run_inv(run, k);
    assert(run[k].has_node(i) && run[k].has_node(j));
    assert(run[k].node_ok_at(i) && run[k].node_ok_at(j));
}

/// Between two points of a run node `i` keeps its address and its metadata, whether
/// it restarts or not.
pub open spec fn keeps_address(run: Seq<Cluster>, k: int, l: int, i: int) -> bool {
    forall|m: int|
        k <= m <= l ==> (#[trigger] run[m]).nodes[i].address == run[l].nodes[i].address
            && run[m].nodes[i].metadata == run[l].nodes[i].metadata
}

/// A lease in the name of a node was sent by that node, and tells of it what was so
/// then.
proof fn lemma_sender_is_named(
    run: Seq<Cluster>,
    m: int,
    j: int,
    k: int,
    i: int,
    lease: LeaseView,
)
    requires
        is_run(run),
        0 <= m <= k < run.len(),
        run[m].sends(j, lease),
        run[k].has_node(i),
        lease.node_id == run[k].nodes[i].node_id,
    ensures
        j == i,
        is_from(lease, run[m].nodes[i]),
        keeps_address(run, m, k, i) ==> is_from(lease, run[k].nodes[i]),
{
    lemma_run_inv(run, m);
    lemma_run_inv(run, k);
    lemma_history_grows(run, m, k);
    assert(run[m].has_node(j));
    assert(run[m].node_ok_at(j));
    if j != i {
        assert(run[k].nodes[i].node_id != run[k].nodes[j].node_id);
    }
}

/// The lockfile names the node that holds it, in a term that this node knows of. It
/// is this node that has sent the lease, and the address and the metadata in it are
/// those that the node had then: as long as it has not come back with others since,
/// they are those that it has.
pub proof fn law_lockfile_names_its_holder(run: Seq<Cluster>, k: int, i: int)
    requires
        is_run(run),
        0 <= k < run.len(),
        run[k].holds_lockfile(i),
    ensures
        run[k].lockfile matches Some((lease, _)) && {
            &&& lease.node_id == run[k].nodes[i].node_id
            &&& lease.term <= run[k].nodes[i].term
            &&& exists|m: int| 0 <= m <= k && #[trigger] run[m].sends(i, lease)
            &&& forall|m: int|
                0 <= m <= k && #[trigger] run[m].sends(i, lease) ==> {
                    &&& is_from(lease, run[m].nodes[i])
                    &&& keeps_address(run, m, k, i) ==> is_from(lease, run[k].nodes[i])
                }
            &&& keeps_address(run, 0, k, i) ==> is_from(lease, run[k].nodes[i])
        },
{
    lemma_run_inv(run, k);
    assert(run[k].has_node(i));
    assert(run[k].node_ok_at(i));
    let (lease, etag) = run[k].lockfile->0;
    lemma_written_was_sent(run, k);
    assert(run[k].written.contains_key(etag));
    assert(was_sent(run, k, lease));
    let (n, j) = choose|n: int, j: int| 0 <= n <= k && #[trigger] run[n].sends(j, lease);
    lemma_sender_is_named(run, n, j, k, i, lease);
    assert(run[n].sends(i, lease));
    assert forall|m: int| 0 <= m <= k && #[trigger] run[m].sends(i, lease) implies {
        &&& is_from(lease, run[m].nodes[i])
        &&& keeps_address(run, m, k, i) ==> is_from(lease, run[k].nodes[i])
    } by {
        lemma_sender_is_named(run, m, i, k, i, lease);
    }
    if keeps_address(run, 0, k, i) {
        assert(keeps_address(run, n, k, i));
    }
}

/// As long as the lockfile is never deleted, no two nodes lead in the same term.
pub proof fn law_one_leader_per_term(run: Seq<Cluster>, k: int, i: int, j: int)
    requires
        is_run(run),
        0 <= k < run.len(),
        !run[k].resigned,
        run[k].leads(i),
        run[k].leads(j),
        run[k].nodes[i].term == run[k].nodes[j].term,
    ensures
        i == j,
{
    lemma_run_inv(run, k);
    assert(run[k].has_node(i) && run[k].has_node(j));
    assert(run[k].node_ok_at(i) && run[k].node_ok_at(j));
    let a = run[k].nodes[i].current_etag->0;
    let b = run[k].nodes[j].current_etag->0;
    assert(run[k].written.contains_key(a) && run[k].written.contains_key(b));
}

/// Between two points of a run the lockfile is not deleted.
pub open spec fn is_kept(run: Seq<Cluster>, k: int, l: int) -> bool {
    forall|m: int|
        k <= m < l && (#[trigger] run[m]).lockfile is Some ==> run[m + 1].lockfile is Some
}

/// As long as the lockfile is not deleted, its term does not fall, and it grows
/// whenever the lockfile passes from one node to another.
pub proof fn law_lockfile_term_never_falls(run: Seq<Cluster>, k: int, l: int)
    requires
        is_run(run),
        0 <= k <= l < run.len(),
        is_kept(run, k, l),
    ensures
        run[k].lockfile matches Some((before, _)) ==> {
            &&& run[l].lockfile matches Some((after, _))
            &&& before.term <= after.term
            &&& before.node_id != after.node_id ==> before.term < after.term
        },
    decreases l - k,
{
    if k < l {
        law_lockfile_term_never_falls(run, k, l - 1);
        let c = run[l - 1];
        lemma_run_inv(run, l - 1);
        assert(goes_on(run, l - 1));
        let m = choose|m: Move| #[trigger] c.enabled(m) && run[l] == c.next(m);
        match m {
            Move::Serve(i, _) => {
                assert(c.has_node(i));
                assert(c.node_ok_at(i));
            },
            Move::ServeStray(write, _) => {
                assert(c.stray.contains(write));
            },
            _ => {},
        }
    }
}

/// A race has one winner: of the nodes that have seen the lockfile in the same
/// state, absent or expired with the same ETag, one at most gets its write
/// through, and leads once it is told so. From then on, as long as the lockfile is
/// not deleted again, the store refuses every write that has the same condition; a
/// challenger that sent one leaves the lockfile as it is, stays a follower, tells
/// its subscribers nothing and reads the lockfile.
pub proof fn law_one_winner_per_race(
    run: Seq<Cluster>,
    k: int,
    winner: int,
    etag: Seq<char>,
    lease: LeaseView,
    mode: PutModeView,
    l: int,
    loser: int,
    unused: Seq<char>,
    now: u64,
)
    requires
        is_run(run),
        0 <= k < l < run.len(),
        run[k].enabled(Move::Serve(winner, etag)),
        run[k + 1] == run[k].next(Move::Serve(winner, etag)),
        run[k].nodes[winner].phase is Acquiring,
        run[k].channels[winner] == Channel::Sent(ActionView::Put(lease, mode)),
        run[k].admits(mode),
        is_kept(run, k + 1, l),
    ensures
        ({
            let told = run[k + 1].next(Move::Deliver(winner, now));
            &&& run[k + 1].lockfile == Some((lease, etag))
            &&& told.holds_lockfile(winner)
            &&& told.nodes[winner].published.role is Leader
            &&& told.nodes[winner].published.term == lease.term
        }),
        !run[l].admits(mode),
        run[l].has_node(loser) && run[l].nodes[loser].phase is Acquiring && (
        run[l].channels[loser] matches Channel::Sent(ActionView::Put(_, same)) && same == mode) ==> {
            let served = run[l].next(Move::Serve(loser, unused));
            let told = served.next(Move::Deliver(loser, now));
            &&& served.channels[loser] == Channel::Answered(EventView::PutFailed)
            &&& served.lockfile == run[l].lockfile
            &&& served.written == run[l].written
            &&& told.nodes[loser].role is Follower
            &&& told.nodes[loser].published == run[l].nodes[loser].published
            &&& told.channels[loser] == Channel::Sent(ActionView::Read)
        },
{
    lemma_run_inv(run, k);
    lemma_run_inv(run, k + 1);
    lemma_run_inv(run, l);
    assert(run[k].has_node(winner));
    assert(run[k].node_ok_at(winner));
    law_lockfile_term_never_falls(run, k + 1, l);
    lemma_history_grows(run, k, l);
    if let PutModeView::Update(replaced) = mode {
        assert(run[k].written.contains_key(replaced));
    }
    if run[l].has_node(loser) {
        assert(run[l].node_ok_at(loser));
    }
}

/// A leader whose lease is no longer the one in the lockfile cannot renew it: the
/// store refuses the write, and the node steps back to follower.
pub proof fn law_usurped_leader_steps_down(
    run: Seq<Cluster>,
    k: int,
    i: int,
    etag: Seq<char>,
    now: u64,
)
    requires
        is_run(run),
        0 <= k < run.len(),
        run[k].enabled(Move::Serve(i, etag)),
        run[k].leads(i),
        !run[k].holds_lockfile(i),
    ensures
        ({
            let served = run[k].next(Move::Serve(i, etag));
            let demoted = served.next(Move::Deliver(i, now));
            &&& served.lockfile == run[k].lockfile
            &&& served.written == run[k].written
            &&& demoted.nodes[i].role is Follower
            &&& demoted.nodes[i].published.role is Follower
            &&& demoted.channels[i] == Channel::Sent(ActionView::Read)
        }),
{
    lemma_run_inv(run, k);
    assert(run[k].has_node(i));
    assert(run[k].node_ok_at(i));
}

} // verus!
