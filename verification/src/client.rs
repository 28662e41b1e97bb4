//! Finding the leader, and sending requests to it.

use crate::clock::{
    monotonic_clock_gives, monotonic_clock_shows, monotonic_elapsed, monotonic_instant, now_ms,
    reading_ms, reading_nanos, wall_clock_gives,
};
use crate::duration::Duration;
use crate::election::names_leader;
use crate::error::{Error, LeaderError};
use crate::lease::{lock_path, lock_path_of, LeaderInfo, Lease};
use reqwest::Error as HttpError;
use vstd::prelude::*;

verus! {

/// Implemented by transport error types to indicate that the cached leader
/// address should be discarded before retrying.
pub trait ShouldInvalidate {
    fn should_invalidate(&self) -> bool;
}

/// Responses with these status codes indicate the node we reached is not the
/// real leader or is temporarily unavailable — invalidate and retry.
pub open spec fn is_cache_invalidating_status(status: u16) -> bool {
    status == 502 || status == 503 || status == 504
}

/// What is known of a failed HTTP request.
#[derive(Debug, Clone, Copy, PartialEq, Eq, Structural)]
pub struct HttpFailure {
    /// The connection could not be made.
    pub is_connect: bool,
    /// The request timed out.
    pub is_timeout: bool,
    /// The status code of the response, if there was one.
    pub status: Option<u16>,
}

impl HttpFailure {
    /// The failure suggests that the leader is gone.
    pub open spec fn invalidates(self) -> bool {
        ||| self.is_connect
        ||| self.is_timeout
        ||| self.status matches Some(code) && is_cache_invalidating_status(code)
    }
}

impl ShouldInvalidate for HttpFailure {
    fn should_invalidate(&self) -> (verdict: bool)
        ensures
            verdict == self.invalidates(),
    {
        if self.is_connect || self.is_timeout {
            return true;
        }
        match self.status {
            Some(code) => code == 502 || code == 503 || code == 504,
            None => false,
        }
    }
}

/// `reqwest::Error`, of which the functions below ask what they need.
#[verifier::external_type_specification]
#[verifier::external_body]
pub struct ExHttpError(HttpError);

/// Calls `reqwest::Error::is_connect`: whether the error is related to connecting.
/// What is inside an error is not modelled, so nothing is claimed of the answer.
#[verifier::external_body]
pub(crate) fn http_is_connect(error: &HttpError) -> bool {
    error.is_connect()
}

/// Calls `reqwest::Error::is_timeout`: whether the error is related to a timeout.
/// What is inside an error is not modelled, so nothing is claimed of the answer.
#[verifier::external_body]
pub(crate) fn http_is_timeout(error: &HttpError) -> bool {
    error.is_timeout()
}

/// Calls `reqwest::Error::status`: the status code of the response, as a number, if
/// the error was generated from one. What is inside an error is not modelled, so
/// nothing is claimed of the answer.
#[verifier::external_body]
pub(crate) fn http_status(error: &HttpError) -> Option<u16> {
    match error.status() {
        Some(status) => Some(status.as_u16()),
        None => None,
    }
}

/// The error can answer like this when it is asked what is known of the failure.
pub closed spec fn http_error_tells(error: HttpError, failure: HttpFailure) -> bool {
    &&& call_ensures(http_is_connect, (&error,), failure.is_connect)
    &&& call_ensures(http_is_timeout, (&error,), failure.is_timeout)
    &&& call_ensures(http_status, (&error,), failure.status)
}

/// What is known of the failed request that ended in this error.
fn http_failure(error: &HttpError) -> (failure: HttpFailure)
    ensures
        http_error_tells(*error, failure),
{
    HttpFailure {
        is_connect: http_is_connect(error),
        is_timeout: http_is_timeout(error),
        status: http_status(error),
    }
}

impl ShouldInvalidate for HttpError {
    fn should_invalidate(&self) -> (verdict: bool)
        ensures
            exists|failure: HttpFailure| #[trigger]
                http_error_tells(*self, failure) && verdict == failure.invalidates(),
    {
        http_failure(self).should_invalidate()
    }
}

/// A leader's address, and when it has to be looked up again.
struct CachedLeader {
    address: String,
    /// In nanoseconds since the client's origin.
    valid_until: u128,
}

/// Transport-agnostic client that resolves the current leader address from
/// the lockfile and caches it with a configurable TTL.
///
/// Use [`with_leader`](Self::with_leader) to dispatch requests; the client
/// handles cache invalidation and a single retry automatically.
pub struct LeaderClient {
    lock_path: String,
    /// What the monotonic clock showed when the client was made.
    origin: std::time::Instant,
    cached: Option<CachedLeader>,
    cache_ttl: Duration,
}

/// A cached address as contracts see it.
pub ghost struct CachedView {
    pub address: Seq<char>,
    /// In nanoseconds since the client's origin.
    pub valid_until: nat,
}

/// A [`LeaderClient`] as contracts see it.
pub ghost struct ClientView {
    pub lock_path: Seq<char>,
    pub origin: std::time::Instant,
    pub cached: Option<CachedView>,
    pub cache_ttl: Duration,
}

impl View for LeaderClient {
    type V = ClientView;

    closed spec fn view(&self) -> ClientView {
        ClientView {
            lock_path: self.lock_path@,
            origin: self.origin,
            cached: match self.cached {
                Some(c) => Some(
                    CachedView { address: c.address@, valid_until: c.valid_until as nat },
                ),
                None => None,
            },
            cache_ttl: self.cache_ttl,
        }
    }
}

impl ClientView {
    /// The address that the cache gives at the time `at`, since the client's
    /// origin.
    pub open spec fn cached_address(self, at: Duration) -> Option<Seq<char>> {
        match self.cached {
            Some(c) if at@ < c.valid_until => Some(c.address),
            _ => None,
        }
    }

    /// The client with nothing cached.
    pub open spec fn invalidated(self) -> ClientView {
        ClientView { cached: None, ..self }
    }

    /// The client that has this address cached from the time `at` on.
    pub open spec fn caching(self, address: Seq<char>, at: Duration) -> ClientView {
        ClientView {
            cached: Some(CachedView { address, valid_until: at@ + self.cache_ttl@ }),
            ..self
        }
    }

    /// `outcome` and the client `after` are what reading the lockfile leads to, at
    /// the wall-clock time `now` and the time `at` since the client's origin: the
    /// address in a valid lease is given and cached; otherwise there is an error,
    /// and the cache stays.
    pub open spec fn refreshes_to(
        self,
        read: Result<Option<(Lease, String)>, Error>,
        now: u64,
        at: Duration,
        after: ClientView,
        outcome: Result<String, Error>,
    ) -> bool {
        match read {
            Err(e) => outcome == Err::<String, Error>(e) && after == self,
            Ok(Some((lease, _))) if lease@.valid_at(now) => {
                &&& outcome matches Ok(address) && address@ == lease@.address
                &&& after == self.caching(lease@.address, at)
            },
            Ok(_) => outcome == Err::<String, Error>(Error::NoLeader) && after == self,
        }
    }
}

pub open spec fn address_view(address: Option<String>) -> Option<Seq<char>> {
    match address {
        Some(a) => Some(a@),
        None => None,
    }
}

/// How the leader's address is to be had.
#[derive(Debug)]
pub enum Lookup {
    /// It is cached.
    Cached(String),
    /// The lockfile has to be read, for [`LeaderClient::refresh`].
    ReadLockfile,
}

impl Lookup {
    /// The lookup that a cache leads to.
    pub open spec fn follows(self, cached: Option<Seq<char>>) -> bool {
        match self {
            Lookup::Cached(address) => cached == Some(address@),
            Lookup::ReadLockfile => cached is None,
        }
    }
}

impl LeaderClient {
    /// Create a client that reads from the same lockfile as
    /// [`LeaderElection`](crate::LeaderElection).
    ///
    /// * `prefix`    — must match the `prefix` that the participants use.
    /// * `cache_ttl` — how long a resolved leader address is reused before
    ///   re-reading the lockfile. Shorter means faster failover detection at
    ///   the cost of more object-store reads.
    pub fn new(prefix: &str, cache_ttl: Duration) -> (client: Self)
        ensures
            client@ == (ClientView {
                lock_path: lock_path_of(prefix@),
                origin: client@.origin,
                cached: None,
                cache_ttl,
            }),
            monotonic_clock_shows(client@.origin),
    {
        LeaderClient {
            lock_path: lock_path(prefix),
            origin: monotonic_instant(),
            cached: None,
            cache_ttl,
        }
    }

    /// Where the lockfile lies.
    pub fn lock_path(&self) -> (path: &str)
        ensures
            path@ == self@.lock_path,
    {
        self.lock_path.as_str()
    }

    /// How to come by the current leader address, using the cache while it is
    /// valid.
    pub fn leader_address(&self) -> (lookup: Lookup)
        ensures
            exists|reading: (u64, u32), at: Duration| #[trigger]
                monotonic_clock_gives(self@.origin, reading) && at@ == reading_nanos(reading)
                    && lookup.follows(#[trigger] self@.cached_address(at)),
    {
        match self.cached_address() {
            Some(address) => Lookup::Cached(address),
            None => Lookup::ReadLockfile,
        }
    }

    /// Discard the cached leader address. The next call to
    /// [`leader_address`](Self::leader_address) will ask for the lockfile.
    ///
    /// Call this when you receive an error that suggests the current leader is
    /// unreachable; `with_leader` does this automatically.
    pub fn invalidate(&mut self)
        ensures
            final(self)@ == old(self)@.invalidated(),
    {
        self.cached = None;
    }

    /// The cached address, if it may still be used.
    pub fn cached_address(&self) -> (address: Option<String>)
        ensures
            exists|reading: (u64, u32), at: Duration| #[trigger]
                monotonic_clock_gives(self@.origin, reading) && at@ == reading_nanos(reading)
                    && address_view(address) == #[trigger] self@.cached_address(at),
    {
        let at = monotonic_elapsed(&self.origin);
        assert(self@.origin == self.origin);
        self.cached_address_at(at)
    }

    /// The cached address, if it may still be used at the time `at`, since the
    /// client's origin.
    pub fn cached_address_at(&self, at: Duration) -> (address: Option<String>)
        ensures
            address_view(address) == self@.cached_address(at),
    {
        match &self.cached {
            Some(c) => if at.as_nanos() < c.valid_until {
                Some(c.address.clone())
            } else {
                None
            },
            None => None,
        }
    }

    /// Takes what reading the lockfile came to, and caches the leader's address.
    pub fn refresh(&mut self, read: Result<Option<(Lease, String)>, Error>) -> (outcome: Result<
        String,
        Error,
    >)
        ensures
            exists|wall: Option<(u64, u32)>, reading: (u64, u32), at: Duration| #[trigger]
                wall_clock_gives(wall) && #[trigger] monotonic_clock_gives(
                    old(self)@.origin,
                    reading,
                ) && at@ == reading_nanos(reading) && #[trigger] old(self)@.refreshes_to(
                    read,
                    reading_ms(wall),
                    at,
                    final(self)@,
                    outcome,
                ),
    {
        let now: u64 = now_ms();
        let at = monotonic_elapsed(&self.origin);
        self.refresh_at(read, now, at)
    }

    /// Takes what reading the lockfile came to, at the time `now`, in milliseconds
    /// since the Unix epoch, and `at`, since the client's origin.
    pub fn refresh_at(
        &mut self,
        read: Result<Option<(Lease, String)>, Error>,
        now: u64,
        at: Duration,
    ) -> (outcome: Result<String, Error>)
        ensures
            old(self)@.refreshes_to(read, now, at, final(self)@, outcome),
    {
        match read {
            Err(e) => Err(e),
            Ok(Some((lease, _))) => if lease.is_valid_at(now) {
                let address = lease.address;
                let valid_until: u128 = at.as_nanos() + self.cache_ttl.as_nanos();
                self.cached = Some(CachedLeader { address: address.clone(), valid_until });
                Ok(address)
            } else {
                Err(Error::NoLeader)
            },
            Ok(None) => Err(Error::NoLeader),
        }
    }
}

/// Which try at a request this is.
#[derive(Debug, Clone, Copy, PartialEq, Eq, Structural)]
pub enum Attempt {
    First,
    Retry,
}

/// What a request waits for.
#[derive(Debug, Clone, Copy, PartialEq, Eq, Structural)]
pub enum Stage {
    /// The leader's address.
    Resolving,
    /// The transport's answer.
    Calling,
}

/// A request to the leader that is under way.
#[derive(Debug, Clone, Copy, PartialEq, Eq, Structural)]
pub struct Request {
    pub attempt: Attempt,
    pub stage: Stage,
}

/// What the outside work of a request came to.
#[derive(Debug)]
pub enum RequestEvent<T, E> {
    /// The leader's address, or why it is not known.
    Resolved(Result<String, Error>),
    /// The transport's answer.
    Answered(Result<T, E>),
}

/// What a request needs next.
#[derive(Debug)]
pub enum RequestStep<T, E> {
    /// Resolve the leader's address.
    Resolve,
    /// Call the leader at this address.
    Call(String),
    /// The request is over.
    Done(Result<T, LeaderError<E>>),
}

impl Request {
    /// A new request, which waits for the leader's address.
    pub fn start() -> (request: Request)
        ensures
            request == (Request { attempt: Attempt::First, stage: Stage::Resolving }),
    {
        Request { attempt: Attempt::First, stage: Stage::Resolving }
    }

    /// The event is an answer to the work that the request waits for.
    pub open spec fn awaits<T, E>(self, event: RequestEvent<T, E>) -> bool {
        match self.stage {
            Stage::Resolving => event is Resolved,
            Stage::Calling => event is Answered,
        }
    }

    /// The transport's error sends the request on its second try. `invalidates`
    /// says whether the error asks for that.
    pub open spec fn retries<T, E>(self, event: RequestEvent<T, E>, invalidates: bool) -> bool {
        &&& self.attempt is First
        &&& event matches RequestEvent::Answered(Err(_))
        &&& invalidates
    }

    /// The request after an event that it awaits.
    pub open spec fn after<T, E>(self, event: RequestEvent<T, E>, invalidates: bool) -> Request {
        match event {
            RequestEvent::Resolved(Ok(_)) => Request { stage: Stage::Calling, ..self },
            _ => if self.retries(event, invalidates) {
                Request { attempt: Attempt::Retry, stage: Stage::Resolving }
            } else {
                self
            },
        }
    }

    /// What the request needs after an event that it awaits.
    pub open spec fn step<T, E>(self, event: RequestEvent<T, E>, invalidates: bool) -> RequestStep<
        T,
        E,
    > {
        match event {
            RequestEvent::Resolved(Ok(address)) => RequestStep::Call(address),
            RequestEvent::Resolved(Err(e)) => RequestStep::Done(Err(LeaderError::Discovery(e))),
            RequestEvent::Answered(Ok(value)) => RequestStep::Done(Ok(value)),
            RequestEvent::Answered(Err(e)) => if self.retries(event, invalidates) {
                RequestStep::Resolve
            } else {
                RequestStep::Done(Err(LeaderError::Transport(e)))
            },
        }
    }
}

/// `b` is what the error in `event`, if it is the answer to the first call, may
/// say to whether the cached address is to be discarded. Later ones are not asked.
pub open spec fn may_invalidate<T, E: ShouldInvalidate>(
    request: Request,
    event: RequestEvent<T, E>,
    b: bool,
) -> bool {
    match event {
        RequestEvent::Answered(Err(e)) if request.attempt is First => call_ensures(
            E::should_invalidate,
            (&e,),
            b,
        ),
        _ => true,
    }
}

impl LeaderClient {
    /// Dispatch a request to the current leader.
    ///
    /// 1. Resolve the leader address (from cache or lockfile).
    /// 2. Call the leader at that address.
    /// 3. If the returned error satisfies [`ShouldInvalidate::should_invalidate`],
    ///    invalidate the cache and retry **once** with a fresh address.
    /// 4. Return the result of the second attempt regardless.
    ///
    /// A request starts by resolving; each call takes what the work came to and
    /// names the next.
    pub fn with_leader<T, E: ShouldInvalidate>(
        &mut self,
        request: &mut Request,
        event: RequestEvent<T, E>,
    ) -> (step: RequestStep<T, E>)
        requires
            old(request).awaits(event),
        ensures
            exists|b: bool| #[trigger]
                may_invalidate(*old(request), event, b) && {
                    &&& step == old(request).step(event, b)
                    &&& *final(request) == old(request).after(event, b)
                    &&& final(self)@ == if old(request).retries(event, b) {
                        old(self)@.invalidated()
                    } else {
                        old(self)@
                    }
                },
    {
        let invalidates = match &event {
            RequestEvent::Answered(Err(e)) => request.attempt == Attempt::First
                && e.should_invalidate(),
            _ => false,
        };
        proof {
            assert(may_invalidate(*old(request), event, invalidates));
        }
        self.with_leader_given(request, event, invalidates)
    }

    /// Takes what a request's work came to; `invalidates` says whether the error
    /// in it, if there is one, asks for the cached address to be discarded.
    pub fn with_leader_given<T, E>(
        &mut self,
        request: &mut Request,
        event: RequestEvent<T, E>,
        invalidates: bool,
    ) -> (step: RequestStep<T, E>)
        requires
            old(request).awaits(event),
        ensures
            step == old(request).step(event, invalidates),
            *final(request) == old(request).after(event, invalidates),
            final(self)@ == if old(request).retries(event, invalidates) {
                old(self)@.invalidated()
            } else {
                old(self)@
            },
    {
        match event {
            RequestEvent::Resolved(Ok(address)) => {
                request.stage = Stage::Calling;
                RequestStep::Call(address)
            },
            RequestEvent::Resolved(Err(e)) => RequestStep::Done(Err(LeaderError::Discovery(e))),
            RequestEvent::Answered(Ok(value)) => RequestStep::Done(Ok(value)),
            RequestEvent::Answered(Err(e)) => if request.attempt == Attempt::First && invalidates {
                self.invalidate();
                *request = Request { attempt: Attempt::Retry, stage: Stage::Resolving };
                RequestStep::Resolve
            } else {
                RequestStep::Done(Err(LeaderError::Transport(e)))
            },
        }
    }
}

/// After the cache was invalidated the lockfile is read again, whenever the
/// address is asked for next.
pub proof fn law_invalidated_client_reads_the_lockfile(client: ClientView, at: Duration)
    ensures
        client.invalidated().cached_address(at) is None,
{
}

/// An address that was read from the lockfile is given back from the cache for
/// exactly the TTL, and then read again.
pub proof fn law_cached_for_the_ttl(
    client: ClientView,
    address: Seq<char>,
    resolved: Duration,
    at: Duration,
)
    ensures
        client.caching(address, resolved).cached_address(at) == if at@ < resolved@
            + client.cache_ttl@ {
            Some(address)
        } else {
            None::<Seq<char>>
        },
{
}

/// From the same lockfile, at the same time, a client gets an address exactly when
/// an observer sees a leader, and it is that leader's.
pub proof fn law_client_and_observer_agree(
    client: ClientView,
    read: Result<Option<(Lease, String)>, Error>,
    now: u64,
    at: Duration,
    after: ClientView,
    address: Result<String, Error>,
    leader: Result<Option<LeaderInfo>, Error>,
)
    requires
        client.refreshes_to(read, now, at, after, address),
        names_leader(read, now, leader),
    ensures
        match leader {
            Ok(Some(info)) => address matches Ok(a) && a@ == info.address@,
            Ok(None) => address == Err::<String, Error>(Error::NoLeader),
            Err(e) => address == Err::<String, Error>(e),
        },
{
}

/// A retry goes to an address that is read from the lockfile: once the first
/// answer asks for it, nothing is cached.
pub proof fn law_retry_reads_the_lockfile<T, E>(
    client: ClientView,
    request: Request,
    event: RequestEvent<T, E>,
    invalidates: bool,
    at: Duration,
)
    requires
        request.awaits(event),
        request.retries(event, invalidates),
    ensures
        request.step(event, invalidates) is Resolve,
        client.invalidated().cached_address(at) is None,
{
}

/// The calls of the transport that a request can still ask for.
pub open spec fn calls_left(request: Request) -> nat {
    match (request.attempt, request.stage) {
        (Attempt::First, Stage::Resolving) => 2,
        (Attempt::First, Stage::Calling) => 1,
        (Attempt::Retry, Stage::Resolving) => 1,
        (Attempt::Retry, Stage::Calling) => 0,
    }
}

/// The calls of the transport that a request asks for as it meets these events;
/// each comes with what its error, if it is one, says of the cache.
pub open spec fn calls_made<T, E>(request: Request, events: Seq<(RequestEvent<T, E>, bool)>) -> nat
    decreases events.len(),
{
    if events.len() == 0 || !request.awaits(events[0].0) {
        0
    } else {
        let (event, invalidates) = events[0];
        let rest = calls_made(request.after(event, invalidates), events.skip(1));
        match request.step(event, invalidates) {
            RequestStep::Call(_) => 1 + rest,
            RequestStep::Resolve => rest,
            RequestStep::Done(_) => 0,
        }
    }
}

/// The transport is called at most as often as the request has calls left.
proof fn lemma_calls_are_bounded<T, E>(
    request: Request,
    events: Seq<(RequestEvent<T, E>, bool)>,
)
    ensures
        calls_made(request, events) <= calls_left(request),
    decreases events.len(),
{
    if events.len() > 0 && request.awaits(events[0].0) {
        let (event, invalidates) = events[0];
        lemma_calls_are_bounded(request.after(event, invalidates), events.skip(1));
    }
}

/// A request is retried once: whatever happens, the transport is called twice at
/// most.
pub proof fn law_one_retry<T, E>(events: Seq<(RequestEvent<T, E>, bool)>)
    ensures
        calls_made(Request { attempt: Attempt::First, stage: Stage::Resolving }, events) <= 2,
{
    lemma_calls_are_bounded(Request { attempt: Attempt::First, stage: Stage::Resolving }, events);
}

/// What the second call returns is the result, whatever it is.
pub proof fn law_second_result_stands<T, E>(answer: Result<T, E>, invalidates: bool)
    ensures
        (Request { attempt: Attempt::Retry, stage: Stage::Calling }).step(
            RequestEvent::Answered(answer),
            invalidates,
        ) == RequestStep::<T, E>::Done(
            match answer {
                Ok(value) => Ok(value),
                Err(e) => Err(LeaderError::Transport(e)),
            },
        ),
{
}

/// A new client looks for the lockfile where the participants of the same prefix have
/// it, keeps addresses for the TTL that it is given, and has none.
pub proof fn law_new_client_knows_no_address(
    prefix: &str,
    cache_ttl: Duration,
    client: LeaderClient,
    path: String,
    shown: &str,
    at: Duration,
    address: Option<String>,
)
    requires
        call_ensures(LeaderClient::new, (prefix, cache_ttl), client),
        call_ensures(lock_path, (prefix,), path),
        call_ensures(LeaderClient::lock_path, (&client,), shown),
        call_ensures(LeaderClient::cached_address_at, (&client, at), address),
    ensures
        shown@ == path@,
        client@.lock_path == path@,
        client@.cache_ttl == cache_ttl,
        client@.cached is None,
        monotonic_clock_shows(client@.origin),
        address is None,
{
}

/// From a lockfile whose lease is within its lifetime a client gets the address that
/// the lease says, and from then on, whatever it had cached, its cache gives back that
/// very address for the TTL, and nothing once that is over.
pub proof fn law_refreshed_address_replaces_the_old(
    client: ClientView,
    lease: Lease,
    etag: String,
    now: u64,
    at: Duration,
    after: ClientView,
    outcome: Result<String, Error>,
    t: Duration,
)
    requires
        client.refreshes_to(Ok(Some((lease, etag))), now, at, after, outcome),
        lease.lease_duration_ms > 0,
        now < lease.acquired_at_ms + lease.lease_duration_ms,
    ensures
        outcome matches Ok(address) && address@ == lease.address@,
        t@ < at@ + client.cache_ttl@ ==> after.cached_address(t) == Some(lease.address@),
        t@ >= at@ + client.cache_ttl@ ==> after.cached_address(t) is None,
        after.lock_path == client.lock_path,
        after.origin == client.origin,
        after.cache_ttl == client.cache_ttl,
{
}

/// A lockfile that cannot be read, that is absent or whose lease has outlived its
/// lifetime gives no address, but the error or that there is no leader; the cache stays
/// what it was.
pub proof fn law_failed_refresh_changes_nothing(
    client: ClientView,
    read: Result<Option<(Lease, String)>, Error>,
    now: u64,
    at: Duration,
    after: ClientView,
    outcome: Result<String, Error>,
)
    requires
        client.refreshes_to(read, now, at, after, outcome),
        read matches Ok(Some((lease, _))) ==> lease.lease_duration_ms == 0 || lease.acquired_at_ms
            + lease.lease_duration_ms <= now,
    ensures
        match read {
            Err(e) => outcome matches Err(same) && same == e,
            Ok(_) => outcome matches Err(Error::NoLeader),
        },
        after == client,
{
}

/// What a refresh gives is what the cache gives after it, for the TTL and no longer;
/// what a refresh fails to give leaves the cache as it was.
pub proof fn law_refresh_and_cache_agree(
    client: &mut LeaderClient,
    read: Result<Option<(Lease, String)>, Error>,
    now: u64,
    at: Duration,
    outcome: Result<String, Error>,
    t: Duration,
    before: Option<String>,
    cached: Option<String>,
)
    requires
        call_ensures(LeaderClient::refresh_at, (client, read, now, at), outcome),
        call_ensures(LeaderClient::cached_address_at, (&*old(client), t), before),
        call_ensures(LeaderClient::cached_address_at, (&*final(client), t), cached),
    ensures
        outcome is Ok <==> (read matches Ok(Some((lease, _))) && lease.lease_duration_ms > 0 && now
            < lease.acquired_at_ms + lease.lease_duration_ms),
        match outcome {
            Ok(address) => {
                &&& read matches Ok(Some((lease, _))) && address@ == lease.address@
                &&& t@ < at@ + old(client)@.cache_ttl@ ==> (cached matches Some(same) && same@
                    == address@)
                &&& t@ >= at@ + old(client)@.cache_ttl@ ==> cached is None
            },
            Err(e) => {
                &&& match read {
                    Err(cause) => e == cause,
                    Ok(_) => e is NoLeader,
                }
                &&& match (before, cached) {
                    (Some(a), Some(b)) => a@ == b@,
                    (None, None) => true,
                    _ => false,
                }
            },
        },
        final(client)@.lock_path == old(client)@.lock_path,
        final(client)@.origin == old(client)@.origin,
        final(client)@.cache_ttl == old(client)@.cache_ttl,
{
}

/// A refresh without a time goes by the clocks: the wall clock decides whether the lease
/// is within its lifetime, the monotonic one from when on the address is kept.
pub proof fn law_refresh_goes_by_the_clocks(
    client: &mut LeaderClient,
    read: Result<Option<(Lease, String)>, Error>,
    outcome: Result<String, Error>,
    t: Duration,
)
    requires
        call_ensures(LeaderClient::refresh, (client, read), outcome),
    ensures
        exists|wall: Option<(u64, u32)>, reading: (u64, u32)| #[trigger]
            wall_clock_gives(wall) && #[trigger] monotonic_clock_gives(
                old(client)@.origin,
                reading,
            ) && {
                &&& outcome is Ok <==> (read matches Ok(Some((lease, _)))
                    && lease.lease_duration_ms > 0 && reading_ms(wall) < lease.acquired_at_ms
                    + lease.lease_duration_ms)
                &&& outcome matches Ok(address) ==> {
                    let until = reading.0 * 1_000_000_000 + reading.1 + old(client)@.cache_ttl@;
                    &&& read matches Ok(Some((lease, _))) && address@ == lease.address@
                    &&& t@ < until ==> final(client)@.cached_address(t) == Some(address@)
                    &&& t@ >= until ==> final(client)@.cached_address(t) is None
                }
                &&& outcome matches Err(e) ==> {
                    &&& match read {
                        Err(cause) => e == cause,
                        Ok(_) => e is NoLeader,
                    }
                    &&& final(client)@ == old(client)@
                }
            },
{
    let (wall, reading, at) = choose|
        wall: Option<(u64, u32)>,
        reading: (u64, u32),
        at: Duration,
    | #[trigger]
        wall_clock_gives(wall) && #[trigger] monotonic_clock_gives(old(client)@.origin, reading)
            && at@ == reading_nanos(reading) && #[trigger] old(client)@.refreshes_to(
            read,
            reading_ms(wall),
            at,
            final(client)@,
            outcome,
        );
    assert(wall_clock_gives(wall) && monotonic_clock_gives(old(client)@.origin, reading));
}

/// The address that a client has cached is given without reading the lockfile, by the
/// time that the monotonic clock gave; without one the lockfile is read.
pub proof fn law_cache_spares_the_read(
    client: LeaderClient,
    lookup: Lookup,
    address: Option<String>,
)
    requires
        call_ensures(LeaderClient::leader_address, (&client,), lookup),
        call_ensures(LeaderClient::cached_address, (&client,), address),
    ensures
        exists|reading: (u64, u32)| #[trigger]
            monotonic_clock_gives(client@.origin, reading) && match client@.cached {
                Some(c) if reading.0 * 1_000_000_000 + reading.1
                    < c.valid_until => lookup matches Lookup::Cached(a) && a@ == c.address,
                _ => lookup is ReadLockfile,
            },
        exists|reading: (u64, u32)| #[trigger]
            monotonic_clock_gives(client@.origin, reading) && match client@.cached {
                Some(c) if reading.0 * 1_000_000_000 + reading.1
                    < c.valid_until => address matches Some(a) && a@ == c.address,
                _ => address is None,
            },
{
}

/// The cache gives its address until the time that this is kept for, and nothing from
/// then on.
pub proof fn law_cache_ends_with_its_time(
    client: LeaderClient,
    at: Duration,
    address: Option<String>,
)
    requires
        call_ensures(LeaderClient::cached_address_at, (&client, at), address),
    ensures
        match client@.cached {
            Some(c) if at@ < c.valid_until => address matches Some(a) && a@ == c.address,
            _ => address is None,
        },
{
}

/// Once its cache is discarded a client has no address at any time, and is otherwise
/// what it was.
pub proof fn law_discarded_address_is_gone(
    client: &mut LeaderClient,
    at: Duration,
    address: Option<String>,
    lookup: Lookup,
)
    requires
        call_ensures(LeaderClient::invalidate, (client,), ()),
        call_ensures(LeaderClient::cached_address_at, (&*final(client), at), address),
        call_ensures(LeaderClient::leader_address, (&*final(client),), lookup),
    ensures
        address is None,
        lookup is ReadLockfile,
        final(client)@.cached is None,
        final(client)@.lock_path == old(client)@.lock_path,
        final(client)@.origin == old(client)@.origin,
        final(client)@.cache_ttl == old(client)@.cache_ttl,
{
}

/// A failed request suggests that the leader is gone exactly when it could not connect,
/// timed out, or was answered that the gateway had no use of the node.
pub proof fn law_gone_leaders_are_recognised(failure: HttpFailure, verdict: bool)
    requires
        verdict == failure.invalidates() || call_ensures(
            HttpFailure::should_invalidate,
            (&failure,),
            verdict,
        ),
    ensures
        verdict <==> failure.is_connect || failure.is_timeout || failure.status == Some(502u16)
            || failure.status == Some(503u16) || failure.status == Some(504u16),
{
}

/// An error of the HTTP client suggests that the leader is gone exactly when what it
/// answers does.
pub proof fn law_http_errors_are_judged_by_their_answers(error: HttpError, verdict: bool)
    requires
        call_ensures(HttpError::should_invalidate, (&error,), verdict),
    ensures
        exists|failure: HttpFailure| #[trigger]
            http_error_tells(error, failure) && (verdict <==> failure.is_connect
                || failure.is_timeout || failure.status == Some(502u16) || failure.status == Some(
                503u16,
            ) || failure.status == Some(504u16)),
{
}

/// A request waits for the address first, and for the transport once it has it.
pub proof fn law_request_waits_in_turn<T, E>(
    request: Request,
    event: RequestEvent<T, E>,
    started: Request,
)
    requires
        call_ensures(Request::start, (), started),
    ensures
        started.attempt is First,
        started.stage is Resolving,
        request.awaits(event) <==> match event {
            RequestEvent::Resolved(_) => request.stage is Resolving,
            RequestEvent::Answered(_) => request.stage is Calling,
        },
{
}

/// What a request comes to, on either try. An address is called, and none other. If
/// there is none, the request is over with the reason, whichever try it is. An answer
/// ends it. So does an error of the transport, unless it is the first and asks for
/// another address: then the address is discarded and asked for again, once.
pub proof fn law_request_goes_on_or_ends<T, E>(
    client: &mut LeaderClient,
    request: &mut Request,
    event: RequestEvent<T, E>,
    invalidates: bool,
    step: RequestStep<T, E>,
)
    requires
        old(request).awaits(event),
        call_ensures(
            LeaderClient::with_leader_given::<T, E>,
            (client, request, event, invalidates),
            step,
        ),
    ensures
        match event {
            RequestEvent::Resolved(Ok(address)) => {
                &&& step matches RequestStep::Call(called) && called == address
                &&& final(request).attempt == old(request).attempt
                &&& final(request).stage is Calling
                &&& final(client)@ == old(client)@
            },
            RequestEvent::Resolved(Err(e)) => {
                &&& step matches RequestStep::Done(Err(LeaderError::Discovery(reason))) && reason
                    == e
                &&& final(client)@ == old(client)@
            },
            RequestEvent::Answered(Ok(value)) => {
                &&& step matches RequestStep::Done(Ok(given)) && given == value
                &&& final(client)@ == old(client)@
            },
            RequestEvent::Answered(Err(e)) => if old(request).attempt is First && invalidates {
                &&& step is Resolve
                &&& final(request).attempt is Retry
                &&& final(request).stage is Resolving
                &&& final(client)@.cached is None
                &&& final(client)@.lock_path == old(client)@.lock_path
                &&& final(client)@.origin == old(client)@.origin
                &&& final(client)@.cache_ttl == old(client)@.cache_ttl
            } else {
                &&& step matches RequestStep::Done(Err(LeaderError::Transport(reason))) && reason
                    == e
                &&& final(client)@ == old(client)@
            },
        },
{
}

/// A request asks the first error of the transport itself whether another address is to
/// be tried, and goes by its answer; nothing else makes it try again.
pub proof fn law_first_error_decides_on_the_retry<T, E: ShouldInvalidate>(
    client: &mut LeaderClient,
    request: &mut Request,
    event: RequestEvent<T, E>,
    step: RequestStep<T, E>,
)
    requires
        old(request).awaits(event),
        call_ensures(LeaderClient::with_leader::<T, E>, (client, request, event), step),
    ensures
        match event {
            RequestEvent::Resolved(Ok(address)) => {
                &&& step matches RequestStep::Call(called) && called == address
                &&& final(request).attempt == old(request).attempt
                &&& final(request).stage is Calling
                &&& final(client)@ == old(client)@
            },
            RequestEvent::Resolved(Err(e)) => {
                &&& step matches RequestStep::Done(Err(LeaderError::Discovery(reason))) && reason
                    == e
                &&& final(client)@ == old(client)@
            },
            RequestEvent::Answered(Ok(value)) => {
                &&& step matches RequestStep::Done(Ok(given)) && given == value
                &&& final(client)@ == old(client)@
            },
            RequestEvent::Answered(Err(e)) => {
                ||| {
                    &&& old(request).attempt is First
                    &&& call_ensures(E::should_invalidate, (&e,), true)
                    &&& step is Resolve
                    &&& final(request).attempt is Retry
                    &&& final(request).stage is Resolving
                    &&& final(client)@.cached is None
                    &&& final(client)@.lock_path == old(client)@.lock_path
                    &&& final(client)@.origin == old(client)@.origin
                    &&& final(client)@.cache_ttl == old(client)@.cache_ttl
                }
                ||| {
                    &&& old(request).attempt is Retry || call_ensures(
                        E::should_invalidate,
                        (&e,),
                        false,
                    )
                    &&& step matches RequestStep::Done(Err(LeaderError::Transport(reason)))
                        && reason == e
                    &&& final(client)@ == old(client)@
                }
            },
        },
{
    let b = choose|b: bool| #[trigger]
        may_invalidate(*old(request), event, b) && {
            &&& step == old(request).step(event, b)
            &&& *final(request) == old(request).after(event, b)
            &&& final(client)@ == if old(request).retries(event, b) {
                old(client)@.invalidated()
            } else {
                old(client)@
            }
        };
    assert(may_invalidate(*old(request), event, b));
}

/// The events that a request can still meet: an address and an answer for each try.
pub open spec fn events_left(request: Request) -> nat {
    match (request.attempt, request.stage) {
        (Attempt::First, Stage::Resolving) => 4,
        (Attempt::First, Stage::Calling) => 3,
        (Attempt::Retry, Stage::Resolving) => 2,
        (Attempt::Retry, Stage::Calling) => 1,
    }
}

/// The steps that a request takes as it meets these events; each comes with what its
/// error, if it is one, says of the cache.
pub open spec fn steps_taken<T, E>(
    request: Request,
    events: Seq<(RequestEvent<T, E>, bool)>,
) -> Seq<RequestStep<T, E>>
    decreases events.len(),
{
    if events.len() == 0 || !request.awaits(events[0].0) {
        Seq::empty()
    } else {
        let (event, invalidates) = events[0];
        let step = request.step(event, invalidates);
        match step {
            RequestStep::Done(_) => seq![step],
            _ => seq![step] + steps_taken(request.after(event, invalidates), events.skip(1)),
        }
    }
}

/// A request comes to an end: each event that it awaits ends it or leaves fewer to
/// come, so that it takes as many steps at most as it has events left, and the last of
/// that many ends it.
pub proof fn law_request_comes_to_an_end<T, E>(
    request: Request,
    events: Seq<(RequestEvent<T, E>, bool)>,
)
    ensures
        steps_taken(request, events).len() <= events_left(request),
        steps_taken(request, events).len() == events_left(request) ==> steps_taken(
            request,
            events,
        ).last() is Done,
        forall|k: int|
            0 <= k < steps_taken(request, events).len() - 1 ==> !((#[trigger] steps_taken(
                request,
                events,
            )[k]) is Done),
    decreases events.len(),
{
    if events.len() > 0 && request.awaits(events[0].0) {
        let (event, invalidates) = events[0];
        let after = request.after(event, invalidates);
        let rest = steps_taken(after, events.skip(1));
        law_request_comes_to_an_end(after, events.skip(1));
        let all = steps_taken(request, events);
        if !(request.step(event, invalidates) is Done) {
            assert(events_left(after) < events_left(request));
            assert forall|k: int| 0 <= k < all.len() - 1 implies !((#[trigger] all[k]) is Done) by {
                if k > 0 {
                    assert(all[k] == rest[k - 1]);
                }
            }
            if rest.len() > 0 {
                assert(all.last() == rest.last());
            }
        }
    }
}

/// A request whose address cannot be had is over with the reason, on either try.
pub proof fn law_unresolved_request_is_over<T, E>(
    request: Request,
    reason: Error,
    invalidates: bool,
)
    ensures
        request.step::<T, E>(RequestEvent::Resolved(Err(reason)), invalidates) == RequestStep::<
            T,
            E,
        >::Done(Err(LeaderError::Discovery(reason))),
{
}

/// What an error can tell of a failure is what it answers when it is asked for each
/// part of it.
pub(crate) proof fn law_http_error_is_asked_for_each_part(error: HttpError, failure: HttpFailure)
    ensures
        http_error_tells(error, failure) <==> {
            &&& call_ensures(http_is_connect, (&error,), failure.is_connect)
            &&& call_ensures(http_is_timeout, (&error,), failure.is_timeout)
            &&& call_ensures(http_status, (&error,), failure.status)
        },
{
}

} // verus!
