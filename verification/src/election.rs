//! A participant in the election: a state machine that asks for one piece of
//! outside work at a time and decides on the answer.

use crate::clock::{now_ms, reading_ms, wall_clock_gives};
use crate::config::Config;
use crate::duration::Duration;
use crate::error::{Error, StoreError};
use crate::lease::{
    lease_stamped, lock_path, lock_path_of, make_lease_at, LeaderInfo, LeaderInfoView, Lease,
    LeaseView,
};
use rand::Rng;
use std::collections::HashMap;
use vstd::prelude::*;

verus! {

#[derive(Debug, Clone, Copy, PartialEq, Eq, Structural)]
pub enum Role {
    Follower,
    Leader,
}

/// Snapshot of this node's current election state.
#[derive(Debug, Clone)]
pub struct State {
    pub role: Role,
    pub term: u64,
    /// Populated when `role == Follower` and a valid leader is known.
    pub leader: Option<LeaderInfo>,
}

/// A [`State`] as contracts see it.
pub ghost struct StateView {
    pub role: Role,
    pub term: nat,
    pub leader: Option<LeaderInfoView>,
}

pub open spec fn leader_view(leader: Option<LeaderInfo>) -> Option<LeaderInfoView> {
    match leader {
        Some(info) => Some(info@),
        None => None,
    }
}

impl View for State {
    type V = StateView;

    open spec fn view(&self) -> StateView {
        StateView { role: self.role, term: self.term as nat, leader: leader_view(self.leader) }
    }
}

impl StateView {
    /// The node id of the known leader.
    pub open spec fn leader_id(self) -> Option<Seq<char>> {
        match self.leader {
            Some(info) => Some(info.node_id),
            None => None,
        }
    }

    /// The two snapshots differ in what subscribers are told of: the role, the
    /// term, or who the leader is.
    pub open spec fn differs_from(self, other: StateView) -> bool {
        ||| self.role != other.role
        ||| self.term != other.term
        ||| self.leader_id() != other.leader_id()
    }

    /// The snapshot after `next` is published over this one, which stays where
    /// the two do not differ.
    pub open spec fn publish(self, next: StateView) -> StateView {
        if self.differs_from(next) {
            next
        } else {
            self
        }
    }
}

/// Publishes a snapshot over `prev` and says whether subscribers are to be woken:
/// `prev` is replaced only where the role, the term or the leader's id changes.
pub fn set_state(prev: &mut State, role: Role, term: u64, leader: Option<LeaderInfo>) -> (changed:
    bool)
    ensures
        ({
            let next = StateView { role, term: term as nat, leader: leader_view(leader) };
            &&& changed == old(prev)@.differs_from(next)
            &&& final(prev)@ == old(prev)@.publish(next)
        }),
        !changed ==> *final(prev) == *old(prev),
{
    let same_leader = match (&prev.leader, &leader) {
        (Some(known), Some(new)) => known.node_id == new.node_id,
        (None, None) => true,
        _ => false,
    };
    let changed = prev.role != role || prev.term != term || !same_leader;
    if changed {
        *prev = State { role, term, leader };
    }
    changed
}

/// The condition under which the lockfile is written.
#[derive(Debug)]
pub enum PutMode {
    /// The file must not exist.
    Create,
    /// The file's ETag must be this one.
    Update(String),
}

/// A [`PutMode`] as contracts see it.
pub ghost enum PutModeView {
    Create,
    Update(Seq<char>),
}

impl View for PutMode {
    type V = PutModeView;

    open spec fn view(&self) -> PutModeView {
        match *self {
            PutMode::Create => PutModeView::Create,
            PutMode::Update(etag) => PutModeView::Update(etag@),
        }
    }
}

/// Why a participant sleeps.
#[derive(Debug, Clone, Copy, PartialEq, Eq, Structural)]
pub enum Pause {
    /// Until the next poll of the lockfile.
    Check,
    /// A random while before racing for a free lockfile.
    Jitter,
    /// Until the next renewal of the own lease.
    Heartbeat,
}

/// The outside work that a participant asks for.
#[derive(Debug)]
pub enum Action {
    /// Read the lockfile.
    Read,
    Sleep(Pause),
    /// Write the lease into the lockfile, if the condition holds.
    Put(Lease, PutMode),
}

/// An [`Action`] as contracts see it.
pub ghost enum ActionView {
    Read,
    Sleep(Pause),
    Put(LeaseView, PutModeView),
}

impl View for Action {
    type V = ActionView;

    open spec fn view(&self) -> ActionView {
        match *self {
            Action::Read => ActionView::Read,
            Action::Sleep(pause) => ActionView::Sleep(pause),
            Action::Put(lease, mode) => ActionView::Put(lease@, mode@),
        }
    }
}

/// What the outside work came to.
#[derive(Debug)]
pub enum Event {
    /// The lockfile's lease and ETag, or `None` where there is no lockfile.
    Read(Result<Option<(Lease, String)>, Error>),
    /// The sleep is over.
    Slept,
    /// The ETag of the lockfile that was written.
    Put(Result<String, Error>),
}

/// An [`Event`] as contracts see it: which error it was does not matter.
pub ghost enum EventView {
    ReadFailed,
    Absent,
    Present(LeaseView, Seq<char>),
    Slept,
    PutFailed,
    Written(Seq<char>),
}

impl View for Event {
    type V = EventView;

    open spec fn view(&self) -> EventView {
        match *self {
            Event::Read(Err(_)) => EventView::ReadFailed,
            Event::Read(Ok(None)) => EventView::Absent,
            Event::Read(Ok(Some((lease, etag)))) => EventView::Present(lease@, etag@),
            Event::Slept => EventView::Slept,
            Event::Put(Err(_)) => EventView::PutFailed,
            Event::Put(Ok(etag)) => EventView::Written(etag@),
        }
    }
}

/// What a participant does next.
#[derive(Debug)]
pub struct Step {
    /// The published [`State`] has changed; subscribers are to be woken.
    pub notify: bool,
    pub action: Action,
}

/// A [`Step`] as contracts see it.
pub ghost struct StepView {
    pub notify: bool,
    pub action: ActionView,
}

impl View for Step {
    type V = StepView;

    open spec fn view(&self) -> StepView {
        StepView { notify: self.notify, action: self.action@ }
    }
}

/// The outside work that a participant waits for.
#[derive(Debug)]
enum Phase {
    /// The lockfile is being read.
    Reading,
    /// Asleep until the next poll.
    Polling,
    /// Asleep before racing for a lockfile that is absent, or expired with this
    /// ETag.
    Jittering(Option<String>),
    /// The lease of this new term is being written.
    Acquiring(u64),
    /// Leader, asleep until the next renewal.
    Holding,
    /// Leader, the renewed lease is being written.
    Renewing,
}

/// The outside work that a participant waits for, as contracts see it.
pub ghost enum PhaseView {
    Reading,
    Polling,
    Jittering(Option<Seq<char>>),
    Acquiring(nat),
    Holding,
    Renewing,
}

pub open spec fn etag_view(etag: Option<String>) -> Option<Seq<char>> {
    match etag {
        Some(e) => Some(e@),
        None => None,
    }
}

impl Phase {
    spec fn view(&self) -> PhaseView {
        match *self {
            Phase::Reading => PhaseView::Reading,
            Phase::Polling => PhaseView::Polling,
            Phase::Jittering(expired) => PhaseView::Jittering(etag_view(expired)),
            Phase::Acquiring(new_term) => PhaseView::Acquiring(new_term as nat),
            Phase::Holding => PhaseView::Holding,
            Phase::Renewing => PhaseView::Renewing,
        }
    }
}

/// A participant in leader election backed by a single object-store lockfile.
///
/// The lockfile lives at `{prefix}/leader` within whatever bucket the object
/// store is configured with. All nodes in a cluster must use the same store and
/// prefix to participate in the same election.
///
/// ## Protocol
///
/// **Follower** — polls the lockfile every `check_interval`:
/// - File absent or embedded TTL expired → wait a random jitter, then race to
///   write the lockfile via a conditional put.
/// - File present and fresh → sleep and poll again.
///
/// **Leader** — rewrites the lockfile every `heartbeat_interval` via an
/// ETag-conditional put. A lost race means another node usurped leadership;
/// the node steps back to Follower.
///
/// A new participant waits for the lockfile to be read: the first action is
/// [`Action::Read`], and each [`step`](Self::step) names the one after it.
pub struct LeaderElection {
    lock_path: String,
    config: Config,
    node_id: String,
    address: String,
    metadata: HashMap<String, String>,
    current_etag: Option<String>,
    term: u64,
    role: Role,
    phase: Phase,
    published: State,
}

/// A [`LeaderElection`] as contracts see it.
pub ghost struct ElectionView {
    pub lock_path: Seq<char>,
    pub config: Config,
    pub node_id: Seq<char>,
    pub address: Seq<char>,
    pub metadata: Map<String, String>,
    /// The ETag of the lease that this node wrote last, while it leads.
    pub current_etag: Option<Seq<char>>,
    /// The highest term that this node has seen or led.
    pub term: nat,
    pub role: Role,
    pub phase: PhaseView,
    pub published: StateView,
}

impl View for LeaderElection {
    type V = ElectionView;

    closed spec fn view(&self) -> ElectionView {
        ElectionView {
            lock_path: self.lock_path@,
            config: self.config,
            node_id: self.node_id@,
            address: self.address@,
            metadata: self.metadata@,
            current_etag: etag_view(self.current_etag),
            term: self.term as nat,
            role: self.role,
            phase: self.phase@,
            published: self.published@,
        }
    }
}

pub open spec fn max_term(a: nat, b: nat) -> nat {
    if a >= b {
        a
    } else {
        b
    }
}

/// The event is an answer to the work that the action asks for.
pub open spec fn answers(action: ActionView, event: EventView) -> bool {
    match action {
        ActionView::Read => event is ReadFailed || event is Absent || event is Present,
        ActionView::Sleep(_) => event is Slept,
        ActionView::Put(_, _) => event is PutFailed || event is Written,
    }
}

/// A step that leaves the published state alone.
pub open spec fn quiet(action: ActionView) -> StepView {
    StepView { notify: false, action }
}

impl ElectionView {
    /// A participant that has just started: a follower in no term that reads the
    /// lockfile.
    pub open spec fn initial(
        lock_path: Seq<char>,
        config: Config,
        node_id: Seq<char>,
        address: Seq<char>,
        metadata: Map<String, String>,
    ) -> ElectionView {
        ElectionView {
            lock_path,
            config,
            node_id,
            address,
            metadata,
            current_etag: None,
            term: 0,
            role: Role::Follower,
            phase: PhaseView::Reading,
            published: StateView { role: Role::Follower, term: 0, leader: None },
        }
    }

    /// What holds of a participant at all times.
    ///
    /// It leads while it holds or renews a lease, and then knows that lease's
    /// ETag, which a follower has none of. Subscribers have been told the role and
    /// the term. A leader is published to followers only; it is another node, in a
    /// term that is not ahead of this node's. A race is run for the term next to
    /// this node's.
    pub open spec fn wf(self) -> bool {
        &&& self.role is Leader <==> (self.phase is Holding || self.phase is Renewing)
        &&& self.role is Leader <==> self.current_etag is Some
        &&& self.published.role == self.role
        &&& self.published.term == self.term
        &&& self.published.leader matches Some(info) ==> {
            &&& self.role is Follower
            &&& info.node_id != self.node_id
            &&& info.term <= self.term
        }
        &&& self.phase matches PhaseView::Acquiring(new_term) ==> new_term == self.term + 1
    }

    /// The event is an answer to the work that this participant waits for.
    pub open spec fn awaits(self, event: EventView) -> bool {
        match self.phase {
            PhaseView::Reading => event is ReadFailed || event is Absent || event is Present,
            PhaseView::Polling => event is Slept,
            PhaseView::Jittering(_) => event is Slept,
            PhaseView::Acquiring(_) => event is PutFailed || event is Written,
            PhaseView::Holding => event is Slept,
            PhaseView::Renewing => event is PutFailed || event is Written,
        }
    }

    /// The node is about to run a race for a term that 64 bits cannot number.
    pub open spec fn is_out_of_terms(self) -> bool {
        self.phase is Jittering && self.term >= u64::MAX
    }

    pub open spec fn lease(self, term: nat, now: u64) -> LeaseView {
        lease_stamped(self.node_id, self.address, self.metadata, term, self.config, now)
    }

    /// The node takes on a role and a term, tells its subscribers, and goes on.
    pub open spec fn announce(
        self,
        role: Role,
        term: nat,
        leader: Option<LeaderInfoView>,
        current_etag: Option<Seq<char>>,
        phase: PhaseView,
        action: ActionView,
    ) -> (ElectionView, StepView) {
        let next = StateView { role, term, leader };
        (
            ElectionView {
                current_etag,
                term,
                role,
                phase,
                published: self.published.publish(next),
                ..self
            },
            StepView { notify: self.published.differs_from(next), action },
        )
    }

    /// The node leads in the term `term` by the lease with this ETag, and sleeps
    /// until it has to be renewed.
    pub open spec fn lead(self, term: nat, etag: Seq<char>) -> (ElectionView, StepView) {
        self.announce(
            Role::Leader,
            term,
            None,
            Some(etag),
            PhaseView::Holding,
            ActionView::Sleep(Pause::Heartbeat),
        )
    }

    /// The node gives up its lease and reads the lockfile again.
    pub open spec fn step_down(self) -> (ElectionView, StepView) {
        self.announce(
            Role::Follower,
            self.term,
            None,
            None,
            PhaseView::Reading,
            ActionView::Read,
        )
    }

    /// The node follows the leader that a valid lease names, and sleeps until the
    /// next poll.
    pub open spec fn follow(self, lease: LeaseView) -> (ElectionView, StepView) {
        self.announce(
            Role::Follower,
            max_term(self.term, lease.term),
            Some(lease.leader_info()),
            self.current_etag,
            PhaseView::Polling,
            ActionView::Sleep(Pause::Check),
        )
    }

    /// The lockfile is free, being absent or, with this ETag, expired: the node
    /// sleeps for a random while before it races for it.
    pub open spec fn await_race(self, term: nat, expired: Option<Seq<char>>) -> (
        ElectionView,
        StepView,
    ) {
        self.announce(
            Role::Follower,
            term,
            None,
            self.current_etag,
            PhaseView::Jittering(expired),
            ActionView::Sleep(Pause::Jitter),
        )
    }

    /// The node tries to write the lease of a new term: to create the lockfile,
    /// or to replace the expired one, by its ETag.
    pub open spec fn challenge(self, expired: Option<Seq<char>>, now: u64) -> (
        ElectionView,
        StepView,
    ) {
        let mode = match expired {
            None => PutModeView::Create,
            Some(etag) => PutModeView::Update(etag),
        };
        (
            ElectionView { phase: PhaseView::Acquiring(self.term + 1), ..self },
            quiet(ActionView::Put(self.lease(self.term + 1, now), mode)),
        )
    }

    /// The leader tries to replace its own lease, by its ETag, with one of the
    /// same term that is stamped anew. Without an ETag it steps down.
    pub open spec fn renew(self, now: u64) -> (ElectionView, StepView) {
        match self.current_etag {
            Some(etag) => (
                ElectionView { phase: PhaseView::Renewing, ..self },
                quiet(ActionView::Put(self.lease(self.term, now), PutModeView::Update(etag))),
            ),
            None => self.step_down(),
        }
    }

    /// What an awaited event leads to, at the time `now`: the participant after
    /// it, and the step to be taken.
    pub open spec fn next(self, event: EventView, now: u64) -> (ElectionView, StepView) {
        match (self.phase, event) {
            // Unreadable: poll again later.
            (PhaseView::Reading, EventView::ReadFailed) => (
                ElectionView { phase: PhaseView::Polling, ..self },
                quiet(ActionView::Sleep(Pause::Check)),
            ),
            (PhaseView::Reading, EventView::Absent) => self.await_race(self.term, None),
            (PhaseView::Reading, EventView::Present(lease, etag)) => {
                let term = max_term(self.term, lease.term);
                if !lease.valid_at(now) {
                    self.await_race(term, Some(etag))
                } else if lease.node_id != self.node_id {
                    self.follow(lease)
                } else {
                    // The own lease, still valid: back after a restart.
                    self.lead(term, etag)
                }
            },
            (PhaseView::Polling, EventView::Slept) => (
                ElectionView { phase: PhaseView::Reading, ..self },
                quiet(ActionView::Read),
            ),
            (PhaseView::Jittering(expired), EventView::Slept) => self.challenge(expired, now),
            (PhaseView::Acquiring(new_term), EventView::Written(etag)) => self.lead(new_term, etag),
            // Lost the race: look who won.
            (PhaseView::Acquiring(_), EventView::PutFailed) => (
                ElectionView { phase: PhaseView::Reading, ..self },
                quiet(ActionView::Read),
            ),
            (PhaseView::Holding, EventView::Slept) => self.renew(now),
            (PhaseView::Renewing, EventView::Written(etag)) => (
                ElectionView { phase: PhaseView::Holding, current_etag: Some(etag), ..self },
                quiet(ActionView::Sleep(Pause::Heartbeat)),
            ),
            (PhaseView::Renewing, EventView::PutFailed) => self.step_down(),
            _ => (self, quiet(ActionView::Read)),
        }
    }
}

/// `outcome` says who leads by a lockfile that was read, at the time `now`.
pub open spec fn names_leader(
    read: Result<Option<(Lease, String)>, Error>,
    now: u64,
    outcome: Result<Option<LeaderInfo>, Error>,
) -> bool {
    match read {
        Err(e) => outcome == Err::<Option<LeaderInfo>, Error>(e),
        Ok(Some((lease, _))) if lease@.valid_at(now) => outcome matches Ok(Some(info)) && info@
            == lease@.leader_info(),
        Ok(_) => outcome == Ok::<Option<LeaderInfo>, Error>(None),
    }
}

/// What a conditional write of the lockfile came to.
#[derive(Debug)]
pub enum PutReply {
    /// The lease could not be put into writing, and nothing was sent.
    Unencodable(serde_json::Error),
    Failed(StoreError),
    /// The file was written; its ETag, as far as the backend gives one.
    Stored(Option<String>),
}

/// Takes the answer to a conditional write of the lockfile: its new ETag, by
/// which it can be renewed.
pub fn put_lease(reply: PutReply) -> (outcome: Result<String, Error>)
    ensures
        outcome == match reply {
            PutReply::Unencodable(e) => Err::<String, Error>(Error::Json(e)),
            PutReply::Stored(Some(etag)) => Ok(etag),
            PutReply::Stored(None) => Err(Error::NoEtag),
            PutReply::Failed(e) => if e.is_lost_race() {
                Err(Error::Conflict)
            } else {
                Err(Error::Store(e.cause()))
            },
        },
{
    match reply {
        PutReply::Unencodable(e) => Err(Error::Json(e)),
        PutReply::Stored(Some(etag)) => Ok(etag),
        PutReply::Stored(None) => Err(Error::NoEtag),
        PutReply::Failed(StoreError::AlreadyExists(_)) => Err(Error::Conflict),
        PutReply::Failed(StoreError::Precondition(_)) => Err(Error::Conflict),
        PutReply::Failed(e) => Err(Error::Store(e.into_cause())),
    }
}

/// Calls `rand::Rng::random_range` on the thread's generator, with an inclusive
/// range that is not empty: the number lies in the range. Which one it is, is up
/// to chance.
#[verifier::external_body]
pub(crate) fn random_between(low: u64, high: u64) -> (drawn: u64)
    requires
        low <= high,
    ensures
        low <= drawn <= high,
{
    rand::rng().random_range(low..=high)
}

/// The generator can give this number when it is asked for one from the range.
pub closed spec fn generator_gives(low: u64, high: u64, drawn: u64) -> bool {
    call_ensures(random_between, (low, high), drawn)
}

/// `length` is an election timeout that the generator picks: a whole number of
/// milliseconds between the two bounds. Where no whole number lies between them,
/// or none that 64 bits can number, it is the lower bound; if that is above the
/// upper bound, it is the upper one in whole milliseconds.
pub open spec fn is_jitter(length: Duration, config: Config) -> bool {
    let low = config.election_timeout_min.millis_up();
    let high = config.election_timeout_max.millis_u64();
    if low <= high {
        exists|drawn: u64| #[trigger]
            generator_gives(low as u64, high, drawn) && low <= drawn <= high && length@ == drawn
                * 1_000_000
    } else if config.election_timeout_min@ <= config.election_timeout_max@ {
        length == config.election_timeout_min
    } else {
        length@ == high * 1_000_000
    }
}

/// A random election timeout.
pub fn random_jitter(config: &Config) -> (length: Duration)
    requires
        config.has_jitter_range(),
    ensures
        is_jitter(length, *config),
        config.election_timeout_min@ <= config.election_timeout_max@
            ==> config.election_timeout_min@ <= length@,
        length@ <= config.election_timeout_max@,
{
    let low: u128 = config.election_timeout_min.as_millis_up();
    let high: u64 = config.election_timeout_max.as_millis_u64();
    if low <= high as u128 {
        let drawn: u64 = random_between(low as u64, high);
        proof {
            assert(generator_gives(low as u64, high, drawn));
        }
        Duration::from_millis(drawn)
    } else if config.election_timeout_min.as_nanos() <= config.election_timeout_max.as_nanos() {
        config.election_timeout_min
    } else {
        Duration::from_millis(high)
    }
}

/// `length` is how long a participant with this configuration sleeps.
pub open spec fn is_pause(pause: Pause, length: Duration, config: Config) -> bool {
    match pause {
        Pause::Check => length == config.check_interval,
        Pause::Heartbeat => length == config.heartbeat_interval,
        Pause::Jitter => is_jitter(length, config),
    }
}

impl LeaderElection {
    /// Start participating in the election.
    ///
    /// * `prefix`   — path prefix within the bucket; lockfile = `{prefix}/leader`.
    /// * `node_id`  — stable unique identifier for this node.
    /// * `address`  — how clients can reach this node when it is leader.
    /// * `metadata` — arbitrary key/value pairs published alongside the lease.
    pub fn start(
        prefix: &str,
        config: Config,
        node_id: String,
        address: String,
        metadata: HashMap<String, String>,
    ) -> (election: Self)
        ensures
            election@ == ElectionView::initial(
                lock_path_of(prefix@),
                config,
                node_id@,
                address@,
                metadata@,
            ),
            election@.wf(),
            forall|answer: EventView| #[trigger]
                answers(ActionView::Read, answer) ==> election@.awaits(answer),
    {
        LeaderElection {
            lock_path: lock_path(prefix),
            config,
            node_id,
            address,
            metadata,
            current_etag: None,
            term: 0,
            role: Role::Follower,
            phase: Phase::Reading,
            published: State { role: Role::Follower, term: 0, leader: None },
        }
    }

    /// Where the lockfile lies.
    pub fn lock_path(&self) -> (path: &str)
        ensures
            path@ == self@.lock_path,
    {
        self.lock_path.as_str()
    }

    /// The role, the term and the leader that subscribers have been told.
    pub fn state(&self) -> (state: &State)
        ensures
            state@ == self@.published,
    {
        &self.published
    }

    /// Returns `true` if this node currently holds the leader lease.
    pub fn is_leader(&self) -> (leads: bool)
        ensures
            leads == (self@.published.role is Leader),
            self@.wf() ==> leads == (self@.role is Leader),
    {
        self.published.role == Role::Leader
    }

    /// How long to sleep.
    pub fn pause_duration(&self, pause: Pause) -> (length: Duration)
        requires
            pause is Jitter ==> self@.config.has_jitter_range(),
        ensures
            is_pause(pause, length, self@.config),
    {
        match pause {
            Pause::Check => self.config.check_interval,
            Pause::Heartbeat => self.config.heartbeat_interval,
            Pause::Jitter => random_jitter(&self.config),
        }
    }

    /// Whether the election timeouts bound a range that a jitter can be drawn
    /// from.
    pub fn has_jitter_range(&self) -> (valid: bool)
        ensures
            valid == self@.config.has_jitter_range(),
    {
        self.config.jitter_range_is_valid()
    }

    /// The leader that the lockfile names, at the time that the wall clock shows.
    pub fn current_leader(read: Result<Option<(Lease, String)>, Error>) -> (outcome: Result<
        Option<LeaderInfo>,
        Error,
    >)
        ensures
            exists|reading: Option<(u64, u32)>| #[trigger]
                wall_clock_gives(reading) && names_leader(read, reading_ms(reading), outcome),
    {
        Self::current_leader_at(read, now_ms())
    }

    /// The leader that the lockfile names, at the time `now`, in milliseconds
    /// since the Unix epoch: none if there is no lockfile or its lease has run out.
    pub fn current_leader_at(read: Result<Option<(Lease, String)>, Error>, now: u64) -> (outcome:
        Result<Option<LeaderInfo>, Error>)
        ensures
            names_leader(read, now, outcome),
    {
        match read {
            Err(e) => Err(e),
            Ok(Some((lease, _))) => if lease.is_valid_at(now) {
                Ok(Some(lease.into_leader_info()))
            } else {
                Ok(None)
            },
            Ok(None) => Ok(None),
        }
    }

    /// Takes the answer to the request to delete the lockfile, by which a node
    /// voluntarily steps down. That there was none to delete is no failure.
    ///
    /// Followers detect the missing file on their next poll and immediately
    /// start their jitter timers, so a successor is elected promptly.
    ///
    /// Once the file is gone a leader is a follower. It waits no more for the work
    /// that it had asked for; the step, which it is given then alone, names the
    /// work that takes its place.
    pub fn resign(&mut self, reply: Result<(), StoreError>) -> (outcome: (
        Result<(), Error>,
        Option<Step>,
    ))
        ensures
            outcome.0 == match reply {
                Ok(()) => Ok::<(), Error>(()),
                Err(StoreError::NotFound(_)) => Ok(()),
                Err(e) => Err(Error::Store(e.cause())),
            },
            outcome.0 is Ok && old(self)@.role is Leader ==> (outcome.1 matches Some(step) && (
                final(self)@,
                step@,
            ) == old(self)@.step_down()),
            !(outcome.0 is Ok && old(self)@.role is Leader) ==> outcome.1 is None && final(self)@
                == old(self)@,
            outcome.0 is Ok ==> final(self)@.role is Follower,
            old(self)@.wf() ==> final(self)@.wf(),
            outcome.1 matches Some(step) ==> forall|answer: EventView| #[trigger]
                answers(step@.action, answer) ==> final(self)@.awaits(answer),
    {
        match reply {
            Ok(()) | Err(StoreError::NotFound(_)) => match self.role {
                Role::Leader => (Ok(()), Some(self.step_down())),
                Role::Follower => (Ok(()), None),
            },
            Err(e) => (Err(Error::Store(e.into_cause())), None),
        }
    }

    /// Whether the terms that 64 bits can number are used up, so that the race
    /// which is due cannot be run.
    pub fn out_of_terms(&self) -> (exhausted: bool)
        ensures
            exhausted == self@.is_out_of_terms(),
    {
        match self.phase {
            Phase::Jittering(_) => self.term == u64::MAX,
            _ => false,
        }
    }

    /// Decides on the answer to the work that was asked for, at the time that the
    /// wall clock shows.
    pub fn step(&mut self, event: Event) -> (step: Step)
        requires
            old(self)@.awaits(event@),
            !old(self)@.is_out_of_terms(),
        ensures
            exists|reading: Option<(u64, u32)>| #[trigger]
                wall_clock_gives(reading) && (final(self)@, step@) == old(self)@.next(
                    event@,
                    reading_ms(reading),
                ),
            old(self)@.wf() ==> final(self)@.wf(),
            forall|answer: EventView| #[trigger]
                answers(step@.action, answer) ==> final(self)@.awaits(answer),
    {
        self.step_at(event, now_ms())
    }

    /// Decides on the answer to the work that was asked for, at the time `now`, in
    /// milliseconds since the Unix epoch.
    pub fn step_at(&mut self, event: Event, now: u64) -> (step: Step)
        requires
            old(self)@.awaits(event@),
            !old(self)@.is_out_of_terms(),
        ensures
            (final(self)@, step@) == old(self)@.next(event@, now),
            old(self)@.wf() ==> final(self)@.wf(),
            forall|answer: EventView| #[trigger]
                answers(step@.action, answer) ==> final(self)@.awaits(answer),
    {
        match event {
            Event::Read(Err(_)) => {
                self.phase = Phase::Polling;
                Step { notify: false, action: Action::Sleep(Pause::Check) }
            },
            Event::Read(Ok(None)) => self.await_race(self.term, None),
            Event::Read(Ok(Some((lease, etag)))) => self.on_lease(lease, etag, now),
            Event::Slept => self.on_slept(now),
            Event::Put(Ok(etag)) => self.on_written(etag),
            Event::Put(Err(_)) => match self.phase {
                Phase::Renewing => self.step_down(),
                _ => {
                    self.phase = Phase::Reading;
                    Step { notify: false, action: Action::Read }
                },
            },
        }
    }

    fn on_lease(&mut self, lease: Lease, etag: String, now: u64) -> (step: Step)
        requires
            old(self)@.phase is Reading,
        ensures
            (final(self)@, step@) == old(self)@.next(EventView::Present(lease@, etag@), now),
    {
        let term: u64 = if self.term >= lease.term {
            self.term
        } else {
            lease.term
        };
        if !lease.is_valid_at(now) {
            // Track the expired term so that no race is run for an earlier one.
            self.await_race(term, Some(etag))
        } else if lease.node_id != self.node_id {
            let notify = self.announce(Role::Follower, term, Some(lease.into_leader_info()));
            self.phase = Phase::Polling;
            Step { notify, action: Action::Sleep(Pause::Check) }
        } else {
            self.lead(term, etag)
        }
    }

    fn on_slept(&mut self, now: u64) -> (step: Step)
        requires
            old(self)@.awaits(EventView::Slept),
            !old(self)@.is_out_of_terms(),
        ensures
            (final(self)@, step@) == old(self)@.next(EventView::Slept, now),
    {
        let mut phase = Phase::Reading;
        std::mem::swap(&mut phase, &mut self.phase);
        match phase {
            Phase::Jittering(expired) => {
                let new_term: u64 = self.term + 1;
                self.phase = Phase::Acquiring(new_term);
                let mode = match expired {
                    None => PutMode::Create,
                    Some(etag) => PutMode::Update(etag),
                };
                Step { notify: false, action: Action::Put(self.lease(new_term, now), mode) }
            },
            Phase::Holding => match &self.current_etag {
                Some(etag) => {
                    let mode = PutMode::Update(etag.clone());
                    self.phase = Phase::Renewing;
                    Step { notify: false, action: Action::Put(self.lease(self.term, now), mode) }
                },
                None => self.step_down(),
            },
            _ => Step { notify: false, action: Action::Read },
        }
    }

    fn on_written(&mut self, etag: String) -> (step: Step)
        requires
            old(self)@.awaits(EventView::Written(etag@)),
        ensures
            forall|now: u64|
                (final(self)@, step@) == #[trigger] old(self)@.next(EventView::Written(etag@), now),
    {
        match self.phase {
            Phase::Acquiring(new_term) => self.lead(new_term, etag),
            _ => {
                self.current_etag = Some(etag);
                self.phase = Phase::Holding;
                Step { notify: false, action: Action::Sleep(Pause::Heartbeat) }
            },
        }
    }

    fn lead(&mut self, term: u64, etag: String) -> (step: Step)
        ensures
            (final(self)@, step@) == old(self)@.lead(term as nat, etag@),
    {
        self.current_etag = Some(etag);
        self.phase = Phase::Holding;
        let notify = self.announce(Role::Leader, term, None);
        Step { notify, action: Action::Sleep(Pause::Heartbeat) }
    }

    fn step_down(&mut self) -> (step: Step)
        ensures
            (final(self)@, step@) == old(self)@.step_down(),
    {
        self.current_etag = None;
        self.phase = Phase::Reading;
        let notify = self.announce(Role::Follower, self.term, None);
        Step { notify, action: Action::Read }
    }

    fn await_race(&mut self, term: u64, expired: Option<String>) -> (step: Step)
        ensures
            (final(self)@, step@) == old(self)@.await_race(term as nat, etag_view(expired)),
    {
        let notify = self.announce(Role::Follower, term, None);
        self.phase = Phase::Jittering(expired);
        Step { notify, action: Action::Sleep(Pause::Jitter) }
    }

    fn announce(&mut self, role: Role, term: u64, leader: Option<LeaderInfo>) -> (notify: bool)
        ensures
            ({
                let next = StateView { role, term: term as nat, leader: leader_view(leader) };
                &&& notify == old(self)@.published.differs_from(next)
                &&& final(self)@ == ElectionView {
                    role,
                    term: term as nat,
                    published: old(self)@.published.publish(next),
                    ..old(self)@
                }
            }),
    {
        self.role = role;
        self.term = term;
        set_state(&mut self.published, role, term, leader)
    }

    fn lease(&self, term: u64, now: u64) -> (lease: Lease)
        ensures
            lease@ == self@.lease(term as nat, now),
    {
        make_lease_at(
            self.node_id.as_str(),
            self.address.as_str(),
            &self.metadata,
            term,
            &self.config,
            now,
        )
    }
}

/// A term never falls: whatever happens, a participant's term stays or grows.
pub proof fn law_term_never_falls(node: ElectionView, event: EventView, now: u64)
    requires
        node.wf(),
        node.awaits(event),
    ensures
        node.next(event, now).0.term >= node.term,
{
}

/// A participant waits for the answer to the work that it has asked for last, and
/// for nothing else.
pub proof fn law_answers_are_awaited(
    node: ElectionView,
    event: EventView,
    now: u64,
    answer: EventView,
)
    requires
        node.awaits(event),
    ensures
        node.next(event, now).0.awaits(answer) <==> answers(
            node.next(event, now).1.action,
            answer,
        ),
{
}

/// Subscribers are woken exactly when the role, the term or the leader's id
/// changes; otherwise what they were told stays as it is.
pub proof fn law_subscribers_are_woken_by_changes(node: ElectionView, event: EventView, now: u64)
    requires
        node.awaits(event),
    ensures
        node.next(event, now).1.notify <==> node.published.differs_from(
            node.next(event, now).0.published,
        ),
        !node.next(event, now).1.notify ==> node.next(event, now).0.published == node.published,
{
}

/// What a participant has told its subscribers is its role and its term, before
/// and after every event; a leader is named by followers only, and is another
/// node.
pub proof fn law_published_state_is_current(node: ElectionView, event: EventView, now: u64)
    requires
        node.wf(),
        node.awaits(event),
    ensures
        ({
            let next = node.next(event, now).0;
            &&& next.wf()
            &&& next.published.role == next.role
            &&& next.published.term == next.term
            &&& next.published.leader matches Some(info) ==> next.role is Follower && info.node_id
                != next.node_id
        }),
{
}

/// While another node's lease is valid, a follower names that node as leader, by
/// what the lease says whenever it tells its subscribers anew, sleeps until the
/// next poll and reads again: it does not race.
pub proof fn law_fresh_lockfile_is_respected(
    node: ElectionView,
    lease: LeaseView,
    etag: Seq<char>,
    now: u64,
    later: u64,
)
    requires
        node.wf(),
        node.phase is Reading,
        lease.valid_at(now),
        lease.node_id != node.node_id,
    ensures
        ({
            let (polling, step) = node.next(EventView::Present(lease, etag), now);
            let (reading, again) = polling.next(EventView::Slept, later);
            &&& step.action == ActionView::Sleep(Pause::Check)
            &&& polling.role is Follower
            &&& polling.published.leader_id() == Some(lease.node_id)
            &&& step.notify ==> polling.published.leader == Some(lease.leader_info())
            &&& polling.term >= lease.term
            &&& again == quiet(ActionView::Read)
            &&& reading.phase is Reading
        }),
{
}

/// An absent lockfile, as a resignation leaves behind, starts the jitter timer at
/// once; after it the node tries to create the file, in a new term.
pub proof fn law_absent_lockfile_is_raced_for(node: ElectionView, now: u64, later: u64)
    requires
        node.wf(),
        node.phase is Reading,
    ensures
        ({
            let (jittering, step) = node.next(EventView::Absent, now);
            let (_, race) = jittering.next(EventView::Slept, later);
            &&& step.action == ActionView::Sleep(Pause::Jitter)
            &&& jittering.role is Follower
            &&& jittering.published.leader is None
            &&& race == quiet(
                ActionView::Put(node.lease(node.term + 1, later), PutModeView::Create),
            )
        }),
{
}

/// An expired lockfile is raced for after the jitter: the node tries to replace
/// exactly the version that it read, by its ETag, with its own lease in a term
/// above both the expired one and every term that it knows of.
pub proof fn law_expired_lockfile_is_raced_for(
    node: ElectionView,
    lease: LeaseView,
    etag: Seq<char>,
    now: u64,
    later: u64,
)
    requires
        node.wf(),
        node.phase is Reading,
        !lease.valid_at(now),
    ensures
        ({
            let (jittering, step) = node.next(EventView::Present(lease, etag), now);
            let (_, race) = jittering.next(EventView::Slept, later);
            let new_term = max_term(node.term, lease.term) + 1;
            &&& step.action == ActionView::Sleep(Pause::Jitter)
            &&& jittering.role is Follower
            &&& race == quiet(
                ActionView::Put(node.lease(new_term, later), PutModeView::Update(etag)),
            )
            &&& new_term > lease.term
            &&& new_term > node.term
        }),
{
}

/// A lockfile that cannot be read is no reason to race: the node stays what it is,
/// tells its subscribers nothing, sleeps until the next poll and reads again.
pub proof fn law_failed_read_is_repeated(node: ElectionView, now: u64, later: u64)
    requires
        node.wf(),
        node.phase is Reading,
    ensures
        ({
            let (polling, step) = node.next(EventView::ReadFailed, now);
            let (reading, again) = polling.next(EventView::Slept, later);
            &&& step == quiet(ActionView::Sleep(Pause::Check))
            &&& polling.role is Follower
            &&& again == quiet(ActionView::Read)
            &&& reading == node
        }),
{
}

/// The protocol keeps its pace. Whatever a read of the lockfile comes to, the node
/// sleeps once before it does anything else:
/// - for the check interval before it reads again;
/// - for an election timeout, between the two bounds, before it races for a free
///   lockfile, which it does without reading it again; if the bounds are crossed,
///   the upper one is kept to;
/// - for the heartbeat interval before it renews its own lease, and again after
///   each renewal that succeeds.
pub proof fn law_pace_is_kept(
    node: ElectionView,
    event: EventView,
    now: u64,
    later: u64,
    length: Duration,
)
    requires
        node.wf(),
        node.awaits(event),
    ensures
        ({
            let (asleep, step) = node.next(event, now);
            let (awake, work) = asleep.next(EventView::Slept, later);
            &&& node.phase is Reading || event is Written ==> step.action is Sleep
            &&& step.action matches ActionView::Sleep(pause) ==> is_pause(
                pause,
                length,
                node.config,
            ) ==> (match pause {
                Pause::Check => length@ == node.config.check_interval@ && work.action is Read,
                Pause::Jitter => {
                    &&& node.config.election_timeout_min@ <= node.config.election_timeout_max@
                        ==> node.config.election_timeout_min@ <= length@
                    &&& length@ <= node.config.election_timeout_max@
                    &&& work.action is Put
                    &&& awake.phase is Acquiring
                },
                Pause::Heartbeat => {
                    &&& length@ == node.config.heartbeat_interval@
                    &&& work.action is Put
                    &&& awake.phase is Renewing
                },
            })
        }),
{
}

/// A lockfile is written only by a node that has slept since its last read or
/// write: for an election timeout to race for it, or for the heartbeat interval to
/// renew a lease.
pub proof fn law_writes_follow_a_pause(node: ElectionView, event: EventView, now: u64)
    requires
        node.wf(),
        node.awaits(event),
    ensures
        node.next(event, now).1.action is Put ==> event is Slept && (node.phase is Jittering
            || node.phase is Holding),
        node.next(event, now).1.action == ActionView::Sleep(Pause::Jitter)
            <==> node.next(event, now).0.phase is Jittering,
        node.next(event, now).1.action == ActionView::Sleep(Pause::Heartbeat)
            <==> node.next(event, now).0.phase is Holding,
{
}

/// A node that comes back while its own lease is still valid leads again at once,
/// by that lease's ETag.
pub proof fn law_own_lease_is_reclaimed(
    node: ElectionView,
    lease: LeaseView,
    etag: Seq<char>,
    now: u64,
)
    requires
        node.wf(),
        node.phase is Reading,
        lease.valid_at(now),
        lease.node_id == node.node_id,
    ensures
        ({
            let (leading, step) = node.next(EventView::Present(lease, etag), now);
            &&& leading.role is Leader
            &&& leading.published.role is Leader
            &&& leading.current_etag == Some(etag)
            &&& leading.term >= lease.term
            &&& step.action == ActionView::Sleep(Pause::Heartbeat)
        }),
{
}

/// A leader renews its lease after each heartbeat: it replaces its own last
/// write, by its ETag, in the same term, with a new stamp. If that succeeds it
/// leads on by the new ETag; if it fails, for whatever reason, it steps back to
/// follower, tells its subscribers and reads the lockfile.
pub proof fn law_leader_renews_or_steps_down(
    node: ElectionView,
    etag: Seq<char>,
    now: u64,
    later: u64,
)
    requires
        node.wf(),
        node.phase is Holding,
    ensures
        ({
            let (renewing, step) = node.next(EventView::Slept, now);
            let (renewed, sleep) = renewing.next(EventView::Written(etag), later);
            let (demoted, read) = renewing.next(EventView::PutFailed, later);
            &&& node.current_etag matches Some(own) && step == quiet(
                ActionView::Put(node.lease(node.term, now), PutModeView::Update(own)),
            )
            &&& renewed == (ElectionView { current_etag: Some(etag), ..node })
            &&& sleep == quiet(ActionView::Sleep(Pause::Heartbeat))
            &&& demoted.role is Follower
            &&& demoted.current_etag is None
            &&& demoted.published == (StateView {
                role: Role::Follower,
                term: node.term,
                leader: None,
            })
            &&& read == (StepView { notify: true, action: ActionView::Read })
        }),
{
}

/// A leader whose lockfile has been deleted at its request leads no more: its
/// subscribers are told at once that it is a follower that knows of no leader, and
/// it reads the lockfile, for which it races like any other node if it is still
/// absent.
pub proof fn law_resigned_leader_follows(node: ElectionView, now: u64)
    requires
        node.wf(),
        node.role is Leader,
    ensures
        ({
            let (follower, step) = node.step_down();
            let (_, wait) = follower.next(EventView::Absent, now);
            &&& follower.wf()
            &&& follower.role is Follower
            &&& follower.current_etag is None
            &&& follower.published == (StateView {
                role: Role::Follower,
                term: node.term,
                leader: None,
            })
            &&& step == (StepView { notify: true, action: ActionView::Read })
            &&& wait.action == ActionView::Sleep(Pause::Jitter)
        }),
{
}

/// Whether a lockfile is fresh is read off the lockfile: two nodes that differ in
/// their configuration alone are led by it to the same state and the same step.
pub proof fn law_liveness_is_read_off_the_lockfile(
    node: ElectionView,
    config: Config,
    lease: LeaseView,
    etag: Seq<char>,
    now: u64,
)
    requires
        node.phase is Reading,
    ensures
        ({
            let other = ElectionView { config, ..node };
            let event = EventView::Present(lease, etag);
            &&& other.next(event, now).0 == (ElectionView { config, ..node.next(event, now).0 })
            &&& other.next(event, now).1 == node.next(event, now).1
        }),
{
}

/// A participant stays who it is: its identity, its configuration and its
/// lockfile are the same after every event.
pub proof fn law_identity_is_kept(node: ElectionView, event: EventView, now: u64)
    ensures
        ({
            let next = node.next(event, now).0;
            &&& next.lock_path == node.lock_path
            &&& next.config == node.config
            &&& next.node_id == node.node_id
            &&& next.address == node.address
            &&& next.metadata == node.metadata
        }),
{
}

// What is shown of the values that go in and out

/// A snapshot is shown in contracts field by field as it is.
pub proof fn law_state_is_shown_as_it_is(state: State)
    ensures
        state@.role == state.role,
        state@.term == state.term,
        match (state@.leader, state.leader) {
            (Some(shown), Some(info)) => {
                &&& shown.node_id == info.node_id@
                &&& shown.address == info.address@
                &&& shown.term == info.term
                &&& shown.metadata == info.metadata@
            },
            (None, None) => true,
            _ => false,
        },
{
}

/// A step is shown in contracts as it is: whether subscribers are woken, and the work
/// with all that it is about.
pub proof fn law_step_is_shown_as_it_is(step: Step)
    ensures
        step@.notify == step.notify,
        match step.action {
            Action::Read => step@.action is Read,
            Action::Sleep(pause) => step@.action matches ActionView::Sleep(shown) && shown == pause,
            Action::Put(lease, mode) => step@.action matches ActionView::Put(shown, condition) && {
                &&& shown.node_id == lease.node_id@
                &&& shown.address == lease.address@
                &&& shown.term == lease.term
                &&& shown.acquired_at_ms == lease.acquired_at_ms
                &&& shown.lease_duration_ms == lease.lease_duration_ms
                &&& shown.metadata == lease.metadata@
                &&& match mode {
                    PutMode::Create => condition is Create,
                    PutMode::Update(etag) => condition matches PutModeView::Update(by) && by
                        == etag@,
                }
            },
        },
{
}

/// An event is shown in contracts as it is, but for which error it was.
pub proof fn law_event_is_shown_as_it_is(event: Event)
    ensures
        match event {
            Event::Read(Ok(Some((lease, etag)))) => event@ matches EventView::Present(shown, by)
                && {
                &&& by == etag@
                &&& shown.node_id == lease.node_id@
                &&& shown.address == lease.address@
                &&& shown.term == lease.term
                &&& shown.acquired_at_ms == lease.acquired_at_ms
                &&& shown.lease_duration_ms == lease.lease_duration_ms
                &&& shown.metadata == lease.metadata@
            },
            Event::Read(Ok(None)) => event@ is Absent,
            Event::Read(Err(_)) => event@ is ReadFailed,
            Event::Slept => event@ is Slept,
            Event::Put(Ok(etag)) => event@ matches EventView::Written(by) && by == etag@,
            Event::Put(Err(_)) => event@ is PutFailed,
        },
{
}

/// Each piece of work is waited for until it has come to something, whatever that is.
pub proof fn law_work_is_waited_for(node: ElectionView, event: EventView)
    ensures
        node.awaits(event) <==> match event {
            EventView::ReadFailed => node.phase is Reading,
            EventView::Absent => node.phase is Reading,
            EventView::Present(_, _) => node.phase is Reading,
            EventView::Slept => node.phase is Polling || node.phase is Jittering
                || node.phase is Holding,
            EventView::PutFailed => node.phase is Acquiring || node.phase is Renewing,
            EventView::Written(_) => node.phase is Acquiring || node.phase is Renewing,
        },
{
}

// What a participant does, from its start on

/// A participant starts as a follower that knows of no term and no leader, with the
/// identity and the configuration that it is given, under the lockfile of its prefix.
pub proof fn law_participant_starts_as_given(
    prefix: &str,
    config: Config,
    node_id: String,
    address: String,
    metadata: HashMap<String, String>,
    election: LeaderElection,
    path: String,
)
    requires
        call_ensures(LeaderElection::start, (prefix, config, node_id, address, metadata), election),
        call_ensures(lock_path, (prefix,), path),
    ensures
        election@.lock_path == path@,
        election@.config == config,
        election@.node_id == node_id@,
        election@.address == address@,
        election@.metadata == metadata@,
        election@.current_etag is None,
        election@.term == 0,
        election@.role is Follower,
        election@.phase is Reading,
        election@.published.role is Follower,
        election@.published.term == 0,
        election@.published.leader is None,
{
}

/// What a participant tells of itself is what it has published: whoever asks for its
/// role, its term and its leader gets these, and it calls itself leader exactly when
/// that is its published role.
pub proof fn law_participant_tells_what_it_published(
    election: LeaderElection,
    state: &State,
    leads: bool,
    path: &str,
)
    requires
        call_ensures(LeaderElection::state, (&election,), state),
        call_ensures(LeaderElection::is_leader, (&election,), leads),
        call_ensures(LeaderElection::lock_path, (&election,), path),
    ensures
        leads <==> state.role is Leader,
        state.role == election@.published.role,
        state.term == election@.published.term,
        match (state.leader, election@.published.leader) {
            (Some(info), Some(shown)) => {
                &&& info.node_id@ == shown.node_id
                &&& info.address@ == shown.address
                &&& info.term == shown.term
                &&& info.metadata@ == shown.metadata
            },
            (None, None) => true,
            _ => false,
        },
        path@ == election@.lock_path,
{
}

/// A step leads where the protocol says, at the time that it is taken.
pub proof fn law_step_follows_the_protocol(
    election: &mut LeaderElection,
    event: Event,
    now: u64,
    step: Step,
)
    requires
        call_ensures(LeaderElection::step_at, (election, event, now), step),
    ensures
        (final(election)@, step@) == old(election)@.next(event@, now),
{
}

/// A step that is taken without a time leads where the protocol says, at the time that
/// the wall clock gave.
pub proof fn law_step_is_taken_by_the_wall_clock(
    election: &mut LeaderElection,
    event: Event,
    step: Step,
)
    requires
        call_ensures(LeaderElection::step, (election, event), step),
    ensures
        exists|reading: Option<(u64, u32)>| #[trigger]
            wall_clock_gives(reading) && (final(election)@, step@) == old(election)@.next(
                event@,
                reading_ms(reading),
            ),
        step.action matches Action::Put(lease, _) ==> exists|reading: Option<(u64, u32)>| #[trigger]
            wall_clock_gives(reading) && lease.acquired_at_ms == reading_ms(reading),
{
    let reading = choose|reading: Option<(u64, u32)>| #[trigger]
        wall_clock_gives(reading) && (final(election)@, step@) == old(election)@.next(
            event@,
            reading_ms(reading),
        );
    if let Action::Put(lease, mode) = step.action {
        law_writes_are_stamped(old(election)@, event@, reading_ms(reading), lease@, mode@);
    }
}

/// Every lease that a participant asks to have written, to win a race or to renew, is
/// its own: with its id, its address and its metadata, stamped with the time of the
/// step and with the configured lifetime. It holds from then on until that is over, and
/// no longer. A race is run for the next term, a renewal is of the same one.
pub proof fn law_writes_are_stamped(
    node: ElectionView,
    event: EventView,
    now: u64,
    lease: LeaseView,
    mode: PutModeView,
)
    requires
        node.next(event, now).1.action == ActionView::Put(lease, mode),
    ensures
        lease.node_id == node.node_id,
        lease.address == node.address,
        lease.metadata == node.metadata,
        lease.acquired_at_ms == now,
        lease.lease_duration_ms == node.config.lease_duration.millis_u64(),
        forall|later: u64|
            now <= later ==> (#[trigger] lease.valid_at(later) <==> later < now
                + node.config.lease_duration.millis_u64()),
        lease.term == if node.phase is Jittering {
            node.term + 1
        } else {
            node.term
        },
{
}

/// The lease that a step hands over to be written is the participant's own, stamped
/// with the time of the step and with the configured lifetime.
pub proof fn law_step_stamps_the_lease(
    election: &mut LeaderElection,
    event: Event,
    now: u64,
    step: Step,
    lease: Lease,
    mode: PutMode,
)
    requires
        call_ensures(LeaderElection::step_at, (election, event, now), step),
        step.action == Action::Put(lease, mode),
    ensures
        lease.node_id@ == old(election)@.node_id,
        lease.address@ == old(election)@.address,
        lease.metadata@ == old(election)@.metadata,
        lease.acquired_at_ms == now,
        lease.lease_duration_ms == old(election)@.config.lease_duration.millis_u64(),
        lease.term == if old(election)@.phase is Jittering {
            old(election)@.term + 1
        } else {
            old(election)@.term
        },
{
    law_writes_are_stamped(old(election)@, event@, now, lease@, mode@);
}

/// Subscribers are woken exactly when the role, the term or the id of the leader that
/// they were told is no longer so; otherwise they keep what they were told.
pub proof fn law_subscribers_miss_nothing(node: ElectionView, event: EventView, now: u64)
    requires
        node.awaits(event),
    ensures
        ({
            let (after, step) = node.next(event, now);
            &&& step.notify <==> {
                ||| node.published.role != after.published.role
                ||| node.published.term != after.published.term
                ||| match (node.published.leader, after.published.leader) {
                    (Some(known), Some(new)) => known.node_id != new.node_id,
                    (None, None) => false,
                    _ => true,
                }
            }
            &&& !step.notify ==> after.published == node.published
        }),
{
}

/// A lockfile that cannot be read changes nothing but that it is read again later.
pub proof fn law_unreadable_lockfile_changes_nothing(node: ElectionView, now: u64)
    requires
        node.phase is Reading,
    ensures
        ({
            let (after, step) = node.next(EventView::ReadFailed, now);
            &&& step.action == ActionView::Sleep(Pause::Check)
            &&& !step.notify
            &&& after.phase is Polling
            &&& after.role == node.role
            &&& after.term == node.term
            &&& after.current_etag == node.current_etag
            &&& after.published == node.published
            &&& after.lock_path == node.lock_path
            &&& after.config == node.config
            &&& after.node_id == node.node_id
            &&& after.address == node.address
            &&& after.metadata == node.metadata
        }),
{
}

/// A lockfile that is absent, or whose lease has outlived its lifetime, is free: the
/// follower forgets its leader, catches up with the term, and waits for the jitter, to
/// race for exactly what it has seen.
pub proof fn law_free_lockfile_is_waited_for(
    node: ElectionView,
    found: Option<(LeaseView, Seq<char>)>,
    now: u64,
)
    requires
        node.wf(),
        node.phase is Reading,
        found matches Some((lease, _)) ==> lease.lease_duration_ms == 0 || lease.acquired_at_ms
            + lease.lease_duration_ms <= now,
    ensures
        ({
            let event = match found {
                Some((lease, etag)) => EventView::Present(lease, etag),
                None => EventView::Absent,
            };
            let (after, step) = node.next(event, now);
            &&& step.action == ActionView::Sleep(Pause::Jitter)
            &&& match found {
                Some((lease, etag)) => {
                    &&& after.phase == PhaseView::Jittering(Some(etag))
                    &&& after.term >= node.term
                    &&& after.term >= lease.term
                    &&& after.term == node.term || after.term == lease.term
                },
                None => after.phase == PhaseView::Jittering(None) && after.term == node.term,
            }
            &&& after.role is Follower
            &&& after.current_etag is None
            &&& after.published.role is Follower
            &&& after.published.term == after.term
            &&& after.published.leader is None
            &&& step.notify <==> node.published.leader is Some || after.term != node.term
            &&& after.lock_path == node.lock_path
            &&& after.config == node.config
            &&& after.node_id == node.node_id
            &&& after.address == node.address
            &&& after.metadata == node.metadata
        }),
{
}

/// Another node's lease that is within its lifetime is respected: the follower names
/// that node, catches up with its term, and polls again later. Subscribers that did not
/// know of it are told all that the lease says.
pub proof fn law_other_leader_is_followed(
    node: ElectionView,
    lease: LeaseView,
    etag: Seq<char>,
    now: u64,
)
    requires
        node.wf(),
        node.phase is Reading,
        lease.lease_duration_ms > 0,
        now < lease.acquired_at_ms + lease.lease_duration_ms,
        lease.node_id != node.node_id,
    ensures
        ({
            let (after, step) = node.next(EventView::Present(lease, etag), now);
            &&& step.action == ActionView::Sleep(Pause::Check)
            &&& after.phase is Polling
            &&& after.role is Follower
            &&& after.current_etag is None
            &&& after.term >= node.term
            &&& after.term >= lease.term
            &&& after.term == node.term || after.term == lease.term
            &&& after.published.role is Follower
            &&& after.published.term == after.term
            &&& after.published.leader matches Some(info) && info.node_id == lease.node_id
            &&& step.notify <==> after.term != node.term || !(
            node.published.leader matches Some(known) && known.node_id == lease.node_id)
            &&& step.notify ==> (after.published.leader matches Some(info) && {
                &&& info.address == lease.address
                &&& info.term == lease.term
                &&& info.metadata == lease.metadata
            })
            &&& !step.notify ==> after.published == node.published
            &&& after.lock_path == node.lock_path
            &&& after.config == node.config
            &&& after.node_id == node.node_id
            &&& after.address == node.address
            &&& after.metadata == node.metadata
        }),
{
}

/// A node's own lease that is within its lifetime is led by again, by its ETag, until
/// the next heartbeat.
pub proof fn law_own_lease_is_led_by(
    node: ElectionView,
    lease: LeaseView,
    etag: Seq<char>,
    now: u64,
)
    requires
        node.wf(),
        node.phase is Reading,
        lease.lease_duration_ms > 0,
        now < lease.acquired_at_ms + lease.lease_duration_ms,
        lease.node_id == node.node_id,
    ensures
        ({
            let (after, step) = node.next(EventView::Present(lease, etag), now);
            &&& step.action == ActionView::Sleep(Pause::Heartbeat)
            &&& step.notify
            &&& after.phase is Holding
            &&& after.role is Leader
            &&& after.current_etag == Some(etag)
            &&& after.term >= node.term
            &&& after.term >= lease.term
            &&& after.term == node.term || after.term == lease.term
            &&& after.published.role is Leader
            &&& after.published.term == after.term
            &&& after.published.leader is None
            &&& after.lock_path == node.lock_path
            &&& after.config == node.config
            &&& after.node_id == node.node_id
            &&& after.address == node.address
            &&& after.metadata == node.metadata
        }),
{
}

/// Once a follower has slept until the next poll it reads the lockfile, and is
/// otherwise what it was.
pub proof fn law_poll_reads_the_lockfile(node: ElectionView, now: u64)
    requires
        node.phase is Polling,
    ensures
        ({
            let (after, step) = node.next(EventView::Slept, now);
            &&& step.action is Read
            &&& !step.notify
            &&& after.phase is Reading
            &&& after.role == node.role
            &&& after.term == node.term
            &&& after.current_etag == node.current_etag
            &&& after.published == node.published
            &&& after.lock_path == node.lock_path
            &&& after.config == node.config
            &&& after.node_id == node.node_id
            &&& after.address == node.address
            &&& after.metadata == node.metadata
        }),
{
}

/// Once the jitter is over the race is run, for the next term: a lockfile that was
/// absent must still be, one that was expired must still be the same. Until the answer
/// comes the node is what it was.
pub proof fn law_race_is_run_on_what_was_seen(
    node: ElectionView,
    expired: Option<Seq<char>>,
    now: u64,
)
    requires
        node.phase == PhaseView::Jittering(expired),
    ensures
        ({
            let (after, step) = node.next(EventView::Slept, now);
            &&& step.action matches ActionView::Put(lease, mode) && {
                &&& lease.term == node.term + 1
                &&& match expired {
                    Some(etag) => mode == PutModeView::Update(etag),
                    None => mode is Create,
                }
            }
            &&& !step.notify
            &&& after.phase == PhaseView::Acquiring(node.term + 1)
            &&& after.role == node.role
            &&& after.term == node.term
            &&& after.current_etag == node.current_etag
            &&& after.published == node.published
            &&& after.lock_path == node.lock_path
            &&& after.config == node.config
            &&& after.node_id == node.node_id
            &&& after.address == node.address
            &&& after.metadata == node.metadata
        }),
{
}

/// A race that is won makes the node leader, in the term that it ran for, by the ETag
/// of its lease, until the next heartbeat; its subscribers are told.
pub proof fn law_won_race_makes_a_leader(
    node: ElectionView,
    new_term: nat,
    etag: Seq<char>,
    now: u64,
)
    requires
        node.wf(),
        node.phase == PhaseView::Acquiring(new_term),
    ensures
        ({
            let (after, step) = node.next(EventView::Written(etag), now);
            &&& step.action == ActionView::Sleep(Pause::Heartbeat)
            &&& step.notify
            &&& after.phase is Holding
            &&& after.role is Leader
            &&& after.current_etag == Some(etag)
            &&& after.term == new_term
            &&& after.published.role is Leader
            &&& after.published.term == new_term
            &&& after.published.leader is None
            &&& after.lock_path == node.lock_path
            &&& after.config == node.config
            &&& after.node_id == node.node_id
            &&& after.address == node.address
            &&& after.metadata == node.metadata
        }),
{
}

/// A race that is lost leaves the node what it was, and has it look who won.
pub proof fn law_lost_race_changes_nothing(node: ElectionView, now: u64)
    requires
        node.phase is Acquiring,
    ensures
        ({
            let (after, step) = node.next(EventView::PutFailed, now);
            &&& step.action is Read
            &&& !step.notify
            &&& after.phase is Reading
            &&& after.role == node.role
            &&& after.term == node.term
            &&& after.current_etag == node.current_etag
            &&& after.published == node.published
            &&& after.lock_path == node.lock_path
            &&& after.config == node.config
            &&& after.node_id == node.node_id
            &&& after.address == node.address
            &&& after.metadata == node.metadata
        }),
{
}

/// Once a heartbeat is due the leader renews its lease: in the term that it has, over
/// the version that it wrote last. Until the answer comes it leads on.
pub proof fn law_heartbeat_renews_the_lease(node: ElectionView, now: u64)
    requires
        node.wf(),
        node.phase is Holding,
    ensures
        ({
            let (after, step) = node.next(EventView::Slept, now);
            &&& step.action matches ActionView::Put(lease, PutModeView::Update(by)) && {
                &&& lease.term == node.term
                &&& node.current_etag == Some(by)
            }
            &&& !step.notify
            &&& after.phase is Renewing
            &&& after.role is Leader
            &&& after.term == node.term
            &&& after.current_etag == node.current_etag
            &&& after.published == node.published
            &&& after.lock_path == node.lock_path
            &&& after.config == node.config
            &&& after.node_id == node.node_id
            &&& after.address == node.address
            &&& after.metadata == node.metadata
        }),
{
}

/// A renewal that succeeds lets the leader lead on until the next heartbeat, by the new
/// ETag; one that fails makes it a follower that knows of no leader and reads the
/// lockfile, and its subscribers are told.
pub proof fn law_renewal_decides(node: ElectionView, etag: Seq<char>, now: u64)
    requires
        node.wf(),
        node.phase is Renewing,
    ensures
        ({
            let (after, step) = node.next(EventView::Written(etag), now);
            &&& step.action == ActionView::Sleep(Pause::Heartbeat)
            &&& !step.notify
            &&& after.phase is Holding
            &&& after.role is Leader
            &&& after.current_etag == Some(etag)
            &&& after.term == node.term
            &&& after.published == node.published
            &&& after.lock_path == node.lock_path
            &&& after.config == node.config
            &&& after.node_id == node.node_id
            &&& after.address == node.address
            &&& after.metadata == node.metadata
        }),
        ({
            let (after, step) = node.next(EventView::PutFailed, now);
            &&& step.action is Read
            &&& step.notify
            &&& after.phase is Reading
            &&& after.role is Follower
            &&& after.current_etag is None
            &&& after.term == node.term
            &&& after.published.role is Follower
            &&& after.published.term == node.term
            &&& after.published.leader is None
            &&& after.lock_path == node.lock_path
            &&& after.config == node.config
            &&& after.node_id == node.node_id
            &&& after.address == node.address
            &&& after.metadata == node.metadata
        }),
{
}

/// Terms stay numbers of 64 bits: only a race that is due in the last of them cannot be
/// run, and only that one is refused.
pub proof fn law_terms_can_be_numbered(
    node: ElectionView,
    event: EventView,
    now: u64,
    election: LeaderElection,
    exhausted: bool,
)
    requires
        call_ensures(LeaderElection::out_of_terms, (&election,), exhausted),
        node == election@,
        node.wf(),
        node.awaits(event),
        node.term <= u64::MAX,
        node.phase matches PhaseView::Acquiring(new_term) ==> new_term <= u64::MAX,
        event matches EventView::Present(lease, _) ==> lease.term <= u64::MAX,
    ensures
        exhausted <==> node.phase is Jittering && node.term == u64::MAX,
        node.is_out_of_terms() == exhausted,
        !exhausted ==> {
            let (after, step) = node.next(event, now);
            &&& after.term <= u64::MAX
            &&& after.phase matches PhaseView::Acquiring(new_term) ==> new_term <= u64::MAX
            &&& step.action matches ActionView::Put(lease, _) ==> lease.term <= u64::MAX
        },
{
}

// What the rest of the work comes to

/// Over a published snapshot the new one takes its place exactly when the role, the
/// term or the id of the leader is another, and then with all that it says; otherwise
/// the old one stays, to the last field.
pub proof fn law_changes_are_published(
    prev: &mut State,
    role: Role,
    term: u64,
    leader: Option<LeaderInfo>,
    changed: bool,
)
    requires
        call_ensures(set_state, (prev, role, term, leader), changed),
    ensures
        changed <==> {
            ||| old(prev).role != role
            ||| old(prev).term != term
            ||| match (old(prev).leader, leader) {
                (Some(known), Some(new)) => known.node_id@ != new.node_id@,
                (None, None) => false,
                _ => true,
            }
        },
        final(prev).role == role,
        final(prev).term == term,
        changed ==> match (final(prev).leader, leader) {
            (Some(told), Some(new)) => {
                &&& told.node_id@ == new.node_id@
                &&& told.address@ == new.address@
                &&& told.term == new.term
                &&& told.metadata@ == new.metadata@
            },
            (None, None) => true,
            _ => false,
        },
        !changed ==> *final(prev) == *old(prev),
{
    let next = StateView { role, term: term as nat, leader: leader_view(leader) };
    assert(old(prev)@.publish(next) == final(prev)@);
    law_state_is_shown_as_it_is(*final(prev));
    law_state_is_shown_as_it_is(*old(prev));
}

/// A write of the lockfile that was stored gives the very ETag it was stored under, and
/// is an error without one. One that was refused for its condition is a lost race; any
/// other failure is handed on.
pub proof fn law_write_of_the_lockfile_is_answered(
    reply: PutReply,
    outcome: Result<String, Error>,
)
    requires
        call_ensures(put_lease, (reply,), outcome),
    ensures
        match reply {
            PutReply::Stored(Some(etag)) => outcome matches Ok(same) && same == etag,
            PutReply::Stored(None) => outcome matches Err(Error::NoEtag),
            PutReply::Failed(StoreError::AlreadyExists(_)) => outcome matches Err(Error::Conflict),
            PutReply::Failed(StoreError::Precondition(_)) => outcome matches Err(Error::Conflict),
            PutReply::Failed(StoreError::NotFound(e)) => outcome matches Err(Error::Store(cause))
                && cause == e,
            PutReply::Failed(StoreError::Other(e)) => outcome matches Err(Error::Store(cause))
                && cause == e,
            PutReply::Unencodable(e) => outcome matches Err(Error::Json(cause)) && cause == e,
        },
{
}

/// From a lockfile whose lease is within its lifetime an observer learns all that the
/// lease says of the leader; from one whose lease has outlived it, or from none, that
/// there is no leader; and if the lockfile cannot be read, why.
pub proof fn law_observer_learns_what_the_lease_says(
    read: Result<Option<(Lease, String)>, Error>,
    now: u64,
    outcome: Result<Option<LeaderInfo>, Error>,
)
    requires
        names_leader(read, now, outcome) || call_ensures(
            LeaderElection::current_leader_at,
            (read, now),
            outcome,
        ),
    ensures
        match read {
            Ok(Some((lease, _))) => if lease.lease_duration_ms > 0 && now < lease.acquired_at_ms
                + lease.lease_duration_ms {
                outcome matches Ok(Some(info)) && {
                    &&& info.node_id@ == lease.node_id@
                    &&& info.address@ == lease.address@
                    &&& info.term == lease.term
                    &&& info.metadata@ == lease.metadata@
                }
            } else {
                outcome matches Ok(None)
            },
            Ok(None) => outcome matches Ok(None),
            Err(e) => outcome matches Err(same) && same == e,
        },
{
}

/// An observer that asks without a time learns what the lockfile says at the time that
/// the wall clock gave.
pub proof fn law_observer_goes_by_the_wall_clock(
    read: Result<Option<(Lease, String)>, Error>,
    outcome: Result<Option<LeaderInfo>, Error>,
)
    requires
        call_ensures(LeaderElection::current_leader, (read,), outcome),
    ensures
        match read {
            Ok(Some((lease, _))) => exists|reading: Option<(u64, u32)>| #[trigger]
                wall_clock_gives(reading) && if lease.lease_duration_ms > 0 && reading_ms(reading)
                    < lease.acquired_at_ms + lease.lease_duration_ms {
                    outcome matches Ok(Some(info)) && {
                        &&& info.node_id@ == lease.node_id@
                        &&& info.address@ == lease.address@
                        &&& info.term == lease.term
                        &&& info.metadata@ == lease.metadata@
                    }
                } else {
                    outcome matches Ok(None)
                },
            Ok(None) => outcome matches Ok(None),
            Err(e) => outcome matches Err(same) && same == e,
        },
{
    let reading = choose|reading: Option<(u64, u32)>| #[trigger]
        wall_clock_gives(reading) && names_leader(read, reading_ms(reading), outcome);
    law_observer_learns_what_the_lease_says(read, reading_ms(reading), outcome);
}

/// A resignation succeeds once there is no lockfile, whether it was there to be deleted
/// or not. A leader is then a follower that knows of no leader and reads the lockfile,
/// in the term that it had, and its subscribers are told; a follower stays what it was.
/// If the lockfile could not be deleted, that is the error, and the node stays what it
/// was.
pub proof fn law_resignation_takes_effect(
    election: &mut LeaderElection,
    reply: Result<(), StoreError>,
    outcome: (Result<(), Error>, Option<Step>),
)
    requires
        call_ensures(LeaderElection::resign, (election, reply), outcome),
        old(election)@.wf(),
    ensures
        match reply {
            Ok(()) => outcome.0 is Ok,
            Err(StoreError::NotFound(_)) => outcome.0 is Ok,
            Err(StoreError::AlreadyExists(e)) => outcome.0 matches Err(Error::Store(cause))
                && cause == e,
            Err(StoreError::Precondition(e)) => outcome.0 matches Err(Error::Store(cause))
                && cause == e,
            Err(StoreError::Other(e)) => outcome.0 matches Err(Error::Store(cause)) && cause == e,
        },
        outcome.0 is Ok && old(election)@.role is Leader ==> {
            let node = old(election)@;
            let after = final(election)@;
            &&& outcome.1 matches Some(step) && step.notify && step.action is Read
            &&& after.phase is Reading
            &&& after.role is Follower
            &&& after.current_etag is None
            &&& after.term == node.term
            &&& after.published.role is Follower
            &&& after.published.term == node.term
            &&& after.published.leader is None
            &&& after.lock_path == node.lock_path
            &&& after.config == node.config
            &&& after.node_id == node.node_id
            &&& after.address == node.address
            &&& after.metadata == node.metadata
        },
        !(outcome.0 is Ok && old(election)@.role is Leader) ==> outcome.1 is None
            && final(election)@ == old(election)@,
        outcome.0 is Ok ==> final(election)@.role is Follower
            && final(election)@.published.role is Follower,
{
}

/// An election timeout is what the generator picks from all whole numbers of
/// milliseconds between the two bounds: from the least that is not below the lower one
/// to the greatest that is not above the upper one, as far as 64 bits number it. Where there is none it is the lower
/// bound, and if the bounds are crossed the upper one in whole milliseconds.
pub proof fn law_jitter_is_drawn_between_the_bounds(
    config: Config,
    length: Duration,
    low: nat,
    high: u64,
)
    requires
        is_jitter(length, config) || call_ensures(random_jitter, (&config,), length),
        (low - 1) * 1_000_000 < config.election_timeout_min@ <= low * 1_000_000,
        high * 1_000_000 <= config.election_timeout_max@,
        config.election_timeout_max@ < (high + 1) * 1_000_000 || high == u64::MAX,
    ensures
        low <= high ==> exists|drawn: u64| #[trigger]
            generator_gives(low as u64, high, drawn) && low <= drawn <= high && length@ == drawn
                * 1_000_000,
        low > high && config.election_timeout_min@ <= config.election_timeout_max@ ==> length@
            == config.election_timeout_min@,
        low > high && config.election_timeout_min@ > config.election_timeout_max@ ==> length@
            == high * 1_000_000,
        length@ <= config.election_timeout_max@,
        config.election_timeout_min@ <= config.election_timeout_max@
            ==> config.election_timeout_min@ <= length@,
{
}

/// A participant sleeps for the interval that it is configured with: until the next
/// poll, until the next renewal, or for an election timeout.
pub proof fn law_pauses_last_as_configured(
    election: LeaderElection,
    pause: Pause,
    length: Duration,
    ranged: bool,
)
    requires
        call_ensures(LeaderElection::pause_duration, (&election, pause), length),
        call_ensures(LeaderElection::has_jitter_range, (&election,), ranged),
    ensures
        match pause {
            Pause::Check => length@ == election@.config.check_interval@,
            Pause::Heartbeat => length@ == election@.config.heartbeat_interval@,
            Pause::Jitter => is_jitter(length, election@.config),
        },
        election@.config.election_timeout_min@ <= election@.config.election_timeout_max@ ==> ranged,
        election@.config.election_timeout_max@ < u64::MAX * 1_000_000 ==> (ranged
            <==> election@.config.election_timeout_min@ < (election@.config.election_timeout_max@
            / 1_000_000 + 1) * 1_000_000),
        election@.config.election_timeout_max@ >= u64::MAX * 1_000_000 ==> ranged,
{
}

/// What the generator can give is what it gives when it is asked for exactly that range.
pub(crate) proof fn law_generator_is_asked_for_the_range(low: u64, high: u64, drawn: u64)
    ensures
        generator_gives(low, high, drawn) <==> call_ensures(random_between, (low, high), drawn),
        low <= high && generator_gives(low, high, drawn) ==> low <= drawn <= high,
{
}

} // verus!
