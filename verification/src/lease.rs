//! The lockfile: what it says, where it lies, and what a reader makes of it.

use crate::clock::{now_ms, reading_ms, wall_clock_gives};
use crate::config::Config;
use crate::error::{Error, StoreError};
use crate::path::{is_plain_path, object_path, path_join, to_object_path};
use std::collections::HashMap;
use vstd::prelude::*;
use vstd::string::*;

verus! {

/// Identity and contact information of the current leader, derived from the
/// lockfile.
#[derive(Debug, Clone)]
pub struct LeaderInfo {
    pub node_id: String,
    pub address: String,
    pub term: u64,
    pub metadata: HashMap<String, String>,
}

/// A [`LeaderInfo`] as contracts see it.
pub ghost struct LeaderInfoView {
    pub node_id: Seq<char>,
    pub address: Seq<char>,
    pub term: nat,
    pub metadata: Map<String, String>,
}

impl View for LeaderInfo {
    type V = LeaderInfoView;

    open spec fn view(&self) -> LeaderInfoView {
        LeaderInfoView {
            node_id: self.node_id@,
            address: self.address@,
            term: self.term as nat,
            metadata: self.metadata@,
        }
    }
}

/// The content of the lockfile.
#[derive(Debug)]
pub struct Lease {
    pub node_id: String,
    pub address: String,
    pub term: u64,
    /// Unix timestamp (ms) at which this lease was written.
    pub acquired_at_ms: u64,
    /// TTL (ms) stamped by the leader when it wrote the file. Readers use
    /// this to determine liveness without any out-of-band configuration.
    pub lease_duration_ms: u64,
    pub metadata: HashMap<String, String>,
}

/// A [`Lease`] as contracts see it.
pub ghost struct LeaseView {
    pub node_id: Seq<char>,
    pub address: Seq<char>,
    pub term: nat,
    pub acquired_at_ms: u64,
    pub lease_duration_ms: u64,
    pub metadata: Map<String, String>,
}

impl View for Lease {
    type V = LeaseView;

    open spec fn view(&self) -> LeaseView {
        LeaseView {
            node_id: self.node_id@,
            address: self.address@,
            term: self.term as nat,
            acquired_at_ms: self.acquired_at_ms,
            lease_duration_ms: self.lease_duration_ms,
            metadata: self.metadata@,
        }
    }
}

impl LeaseView {
    /// The lease holds at the time `now`: its stamped lifetime is not nothing,
    /// and has not run out. A lease stamped later than `now` holds too.
    pub open spec fn valid_at(self, now: u64) -> bool {
        self.lease_duration_ms > 0 && now < self.acquired_at_ms + self.lease_duration_ms
    }

    /// What the lease tells of the leader.
    pub open spec fn leader_info(self) -> LeaderInfoView {
        LeaderInfoView {
            node_id: self.node_id,
            address: self.address,
            term: self.term,
            metadata: self.metadata,
        }
    }
}

impl Lease {
    /// Whether the lease holds at the time `now`, in milliseconds since the Unix
    /// epoch.
    pub fn is_valid_at(&self, now: u64) -> (valid: bool)
        ensures
            valid == self@.valid_at(now),
    {
        now.saturating_sub(self.acquired_at_ms) < self.lease_duration_ms
    }

    /// Whether the lease holds at the time that the wall clock shows.
    pub fn is_valid(&self) -> (valid: bool)
        ensures
            exists|reading: Option<(u64, u32)>| #[trigger]
                wall_clock_gives(reading) && valid == self@.valid_at(reading_ms(reading)),
    {
        self.is_valid_at(now_ms())
    }

    pub fn into_leader_info(self) -> (info: LeaderInfo)
        ensures
            info@ == self@.leader_info(),
    {
        LeaderInfo {
            node_id: self.node_id,
            address: self.address,
            term: self.term,
            metadata: self.metadata,
        }
    }
}

/// The lease that a node writes at the time `now` in the term `term`.
pub open spec fn lease_stamped(
    node_id: Seq<char>,
    address: Seq<char>,
    metadata: Map<String, String>,
    term: nat,
    config: Config,
    now: u64,
) -> LeaseView {
    LeaseView {
        node_id,
        address,
        term,
        acquired_at_ms: now,
        lease_duration_ms: config.lease_duration.millis_u64(),
        metadata,
    }
}

/// Makes out a lease that is stamped with the time `now`, in milliseconds since
/// the Unix epoch.
pub fn make_lease_at(
    node_id: &str,
    address: &str,
    metadata: &HashMap<String, String>,
    term: u64,
    config: &Config,
    now: u64,
) -> (lease: Lease)
    ensures
        lease@ == lease_stamped(node_id@, address@, metadata@, term as nat, *config, now),
{
    Lease {
        node_id: node_id.to_owned(),
        address: address.to_owned(),
        term,
        acquired_at_ms: now,
        lease_duration_ms: config.lease_duration.as_millis_u64(),
        metadata: metadata.clone(),
    }
}

/// Makes out a lease that is stamped with the time that the wall clock shows.
pub fn make_lease(
    node_id: &str,
    address: &str,
    metadata: &HashMap<String, String>,
    term: u64,
    config: &Config,
) -> (lease: Lease)
    ensures
        exists|reading: Option<(u64, u32)>| #[trigger]
            wall_clock_gives(reading) && lease@ == lease_stamped(
                node_id@,
                address@,
                metadata@,
                term as nat,
                *config,
                reading_ms(reading),
            ),
{
    make_lease_at(node_id, address, metadata, term, config, now_ms())
}

/// What reading the lockfile's content came to.
#[derive(Debug)]
pub enum LockfileBody {
    /// The content could not be fetched.
    Unreadable(object_store::Error),
    /// The content is no lease.
    Malformed(serde_json::Error),
    Decoded(Lease),
}

/// Takes the answer to the request for the lockfile: the file's ETag, as far as
/// the backend gives one, or the failure.
///
/// `Ok(Some(etag))` asks for the file's content, which [`read_lease_body`] takes;
/// `Ok(None)` says that there is no lockfile.
pub fn read_lease_meta(reply: Result<Option<String>, StoreError>) -> (outcome: Result<
    Option<String>,
    Error,
>)
    ensures
        outcome == match reply {
            Ok(Some(etag)) => Ok::<Option<String>, Error>(Some(etag)),
            Ok(None) => Err(Error::NoEtag),
            Err(StoreError::NotFound(_)) => Ok(None),
            Err(e) => Err(Error::Store(e.cause())),
        },
{
    match reply {
        Ok(Some(etag)) => Ok(Some(etag)),
        Ok(None) => Err(Error::NoEtag),
        Err(StoreError::NotFound(_)) => Ok(None),
        Err(e) => Err(Error::Store(e.into_cause())),
    }
}

/// Takes the content of the lockfile whose ETag is `etag`.
pub fn read_lease_body(etag: String, body: LockfileBody) -> (outcome: Result<
    Option<(Lease, String)>,
    Error,
>)
    ensures
        outcome == match body {
            LockfileBody::Unreadable(e) => Err::<Option<(Lease, String)>, Error>(Error::Store(e)),
            LockfileBody::Malformed(e) => Err(Error::Json(e)),
            LockfileBody::Decoded(lease) => Ok(Some((lease, etag))),
        },
{
    match body {
        LockfileBody::Unreadable(e) => Err(Error::Store(e)),
        LockfileBody::Malformed(e) => Err(Error::Json(e)),
        LockfileBody::Decoded(lease) => Ok(Some((lease, etag))),
    }
}

/// The lockfile's path under `prefix`: `{prefix}/leader`, with the prefix in the
/// form that object paths have.
pub open spec fn lock_path_of(prefix: Seq<char>) -> Seq<char> {
    path_join(object_path(prefix), "leader"@)
}

/// Where the lockfile lies under `prefix`.
pub fn lock_path(prefix: &str) -> (path: String)
    ensures
        path@ == object_path(prefix@ + "/leader"@),
        path@ == lock_path_of(prefix@),
        is_plain_path(prefix@) ==> path@ == prefix@ + "/leader"@,
{
    let raw: String = prefix.to_owned().concat("/leader");
    proof {
        reveal_strlit("/leader");
        reveal_strlit("leader");
        assert("/leader"@ =~= seq!['/'] + "leader"@);
        assert(raw@ =~= prefix@ + seq!['/'] + "leader"@);
        assert(is_plain_path("leader"@));
    }
    to_object_path(raw)
}

/// A lease that has run out stays run out as time goes on.
pub proof fn law_expired_stays_expired(lease: LeaseView, now: u64, later: u64)
    requires
        !lease.valid_at(now),
        now <= later,
    ensures
        !lease.valid_at(later),
{
}

/// A lease is valid from the moment it is written for exactly the lifetime that
/// is stamped into it, whoever reads it.
pub proof fn law_valid_for_stamped_lifetime(
    node_id: Seq<char>,
    address: Seq<char>,
    metadata: Map<String, String>,
    term: nat,
    config: Config,
    written: u64,
    now: u64,
)
    requires
        written <= now,
    ensures
        lease_stamped(node_id, address, metadata, term, config, written).valid_at(now) <==> now
            - written < config.lease_duration.millis_u64(),
{
}

/// Leases and what they tell of the leader are shown in contracts field by field as
/// they are.
pub proof fn law_lease_is_shown_as_it_is(lease: Lease, info: LeaderInfo)
    ensures
        lease@.node_id == lease.node_id@,
        lease@.address == lease.address@,
        lease@.term == lease.term,
        lease@.acquired_at_ms == lease.acquired_at_ms,
        lease@.lease_duration_ms == lease.lease_duration_ms,
        lease@.metadata == lease.metadata@,
        info@.node_id == info.node_id@,
        info@.address == info.address@,
        info@.term == info.term,
        info@.metadata == info.metadata@,
{
}

/// A lease holds exactly as long as it was acquired less than its stamped lifetime
/// ago; one that is stamped later than now was acquired no time ago.
pub proof fn law_lease_holds_for_its_lifetime(lease: Lease, now: u64, valid: bool)
    requires
        call_ensures(Lease::is_valid_at, (&lease, now), valid),
    ensures
        lease.acquired_at_ms <= now ==> (valid <==> now - lease.acquired_at_ms
            < lease.lease_duration_ms),
        now < lease.acquired_at_ms ==> (valid <==> lease.lease_duration_ms > 0),
        valid == lease@.valid_at(now),
{
}

/// What is said of the lifetime of a lease holds of every lease that contracts speak
/// of.
pub proof fn law_lifetime_decides(lease: LeaseView, now: u64)
    ensures
        lease.acquired_at_ms <= now ==> (lease.valid_at(now) <==> now - lease.acquired_at_ms
            < lease.lease_duration_ms),
        now < lease.acquired_at_ms ==> (lease.valid_at(now) <==> lease.lease_duration_ms > 0),
{
}

/// Asked without a time, a lease holds exactly as long as it was acquired less than its
/// stamped lifetime before the time that the wall clock gave.
pub proof fn law_lease_holds_by_the_wall_clock(lease: Lease, valid: bool)
    requires
        call_ensures(Lease::is_valid, (&lease,), valid),
    ensures
        exists|reading: Option<(u64, u32)>| #[trigger]
            wall_clock_gives(reading) && ({
                let now = reading_ms(reading);
                &&& lease.acquired_at_ms <= now ==> (valid <==> now - lease.acquired_at_ms
                    < lease.lease_duration_ms)
                &&& now < lease.acquired_at_ms ==> (valid <==> lease.lease_duration_ms > 0)
            }),
{
}

/// What a lease tells of the leader is what it says, all of it.
pub proof fn law_leader_is_told_as_the_lease_says(lease: Lease, info: LeaderInfo)
    requires
        call_ensures(Lease::into_leader_info, (lease,), info),
    ensures
        info.node_id@ == lease.node_id@,
        info.address@ == lease.address@,
        info.term == lease.term,
        info.metadata@ == lease.metadata@,
{
}

/// What a lease tells of the leader, as contracts see it, is what it says.
pub proof fn law_leader_info_is_read_off_the_lease(lease: LeaseView)
    ensures
        lease.leader_info().node_id == lease.node_id,
        lease.leader_info().address == lease.address,
        lease.leader_info().term == lease.term,
        lease.leader_info().metadata == lease.metadata,
{
}

/// A lease names the node it is made out for, in the term that it is made out for, and
/// is stamped with the time and with the configured lifetime: it holds at every time
/// from then on until that is over, and no longer.
pub proof fn law_lease_is_made_out_as_asked(
    node_id: &str,
    address: &str,
    metadata: &HashMap<String, String>,
    term: u64,
    config: &Config,
    now: u64,
    lease: Lease,
    later: u64,
    valid: bool,
)
    requires
        call_ensures(make_lease_at, (node_id, address, metadata, term, config, now), lease),
        now <= later,
        call_ensures(Lease::is_valid_at, (&lease, later), valid),
    ensures
        lease.node_id@ == node_id@,
        lease.address@ == address@,
        lease.metadata@ == metadata@,
        lease.term == term,
        lease.acquired_at_ms == now,
        lease.lease_duration_ms == config.lease_duration.millis_u64(),
        valid <==> later < now + config.lease_duration.millis_u64(),
{
}

/// Made out without a time, a lease is stamped with the one that the wall clock gave.
pub proof fn law_lease_is_stamped_by_the_wall_clock(
    node_id: &str,
    address: &str,
    metadata: &HashMap<String, String>,
    term: u64,
    config: &Config,
    lease: Lease,
)
    requires
        call_ensures(make_lease, (node_id, address, metadata, term, config), lease),
    ensures
        lease.node_id@ == node_id@,
        lease.address@ == address@,
        lease.metadata@ == metadata@,
        lease.term == term,
        lease.lease_duration_ms == config.lease_duration.millis_u64(),
        exists|reading: Option<(u64, u32)>| #[trigger]
            wall_clock_gives(reading) && lease.acquired_at_ms == reading_ms(reading),
{
}

/// The lease of a node in a term at a time, as contracts see it, says just that.
pub proof fn law_stamp_says_who_and_when(
    node_id: Seq<char>,
    address: Seq<char>,
    metadata: Map<String, String>,
    term: nat,
    config: Config,
    now: u64,
)
    ensures
        ({
            let lease = lease_stamped(node_id, address, metadata, term, config, now);
            &&& lease.node_id == node_id
            &&& lease.address == address
            &&& lease.metadata == metadata
            &&& lease.term == term
            &&& lease.acquired_at_ms == now
            &&& lease.lease_duration_ms == config.lease_duration.millis_u64()
        }),
{
}

/// A lockfile that is there is read on by the very ETag it has, one without an ETag is
/// an error, an absent one is none; any other failure is handed on.
pub proof fn law_lockfile_is_asked_for(
    reply: Result<Option<String>, StoreError>,
    outcome: Result<Option<String>, Error>,
)
    requires
        call_ensures(read_lease_meta, (reply,), outcome),
    ensures
        match reply {
            Ok(Some(etag)) => outcome matches Ok(Some(same)) && same == etag,
            Ok(None) => outcome matches Err(Error::NoEtag),
            Err(StoreError::NotFound(_)) => outcome matches Ok(None),
            Err(StoreError::AlreadyExists(e)) => outcome matches Err(Error::Store(cause)) && cause
                == e,
            Err(StoreError::Precondition(e)) => outcome matches Err(Error::Store(cause)) && cause
                == e,
            Err(StoreError::Other(e)) => outcome matches Err(Error::Store(cause)) && cause == e,
        },
{
}

/// What is read from a lockfile is the lease that it holds, with the ETag that it was
/// asked for by; if its content is no lease, or cannot be had, that is the error.
pub proof fn law_lockfile_is_read(
    etag: String,
    body: LockfileBody,
    outcome: Result<Option<(Lease, String)>, Error>,
)
    requires
        call_ensures(read_lease_body, (etag, body), outcome),
    ensures
        match body {
            LockfileBody::Decoded(lease) => outcome matches Ok(Some((read, by))) && read == lease
                && by == etag,
            LockfileBody::Unreadable(e) => outcome matches Err(Error::Store(cause)) && cause == e,
            LockfileBody::Malformed(e) => outcome matches Err(Error::Json(cause)) && cause == e,
        },
{
}

/// The lockfile lies directly under the prefix, by the name of `leader`. For a prefix
/// that needs no change that is the prefix, a slash and the name, so that different
/// prefixes never share a lockfile.
pub proof fn law_lockfile_lies_under_its_prefix(
    prefix: &str,
    path: String,
    other_prefix: &str,
    other_path: String,
)
    requires
        call_ensures(lock_path, (prefix,), path),
        call_ensures(lock_path, (other_prefix,), other_path),
    ensures
        path@ == path_join(object_path(prefix@), "leader"@),
        path@ == lock_path_of(prefix@),
        is_plain_path(prefix@) ==> path@ == prefix@ + "/leader"@,
        prefix@ == other_prefix@ ==> path@ == other_path@,
        is_plain_path(prefix@) && is_plain_path(other_prefix@) && path@ == other_path@ ==> prefix@
            == other_prefix@,
{
    if is_plain_path(prefix@) && is_plain_path(other_prefix@) && path@ == other_path@ {
        let name = "/leader"@;
        assert(path@.len() == prefix@.len() + name.len());
        assert(other_path@.len() == other_prefix@.len() + name.len());
        assert forall|i: int| 0 <= i < prefix@.len() implies prefix@[i] == other_prefix@[i] by {
            assert(path@[i] == prefix@[i]);
            assert(other_path@[i] == other_prefix@[i]);
        }
        assert(prefix@ =~= other_prefix@);
    }
}

} // verus!
