use os_discovery::{
    Duration, Error, HttpFailure, LeaderClient, LeaderElection, LeaderError, Lease, Lookup,
    Request, RequestEvent, RequestStep, ShouldInvalidate,
};
use std::collections::HashMap;

fn lease(address: &str) -> Lease {
    Lease {
        node_id: "leader-1".to_string(),
        address: address.to_string(),
        term: 1,
        acquired_at_ms: 1_000,
        lease_duration_ms: 500,
        metadata: HashMap::new(),
    }
}

fn found(address: &str) -> Result<Option<(Lease, String)>, Error> {
    Ok(Some((lease(address), "e1".to_string())))
}

fn secs(n: u64) -> Duration {
    Duration::from_secs(n)
}

fn failure(is_connect: bool, is_timeout: bool, status: Option<u16>) -> HttpFailure {
    HttpFailure {
        is_connect,
        is_timeout,
        status,
    }
}

#[test]
fn client_reads_the_lockfile_of_the_election() {
    let client = LeaderClient::new("my-service", secs(5));
    assert_eq!(client.lock_path(), "my-service/leader");
}

#[test]
fn resolved_address_is_cached_for_the_ttl() {
    let mut client = LeaderClient::new("p", secs(5));
    assert!(client.cached_address_at(secs(0)).is_none());
    let address = client.refresh_at(found("a:1"), 1_200, secs(10)).unwrap();
    assert_eq!(address, "a:1");
    assert_eq!(client.cached_address_at(secs(10)).as_deref(), Some("a:1"));
    let last = Duration::new(14, 999_999_999);
    assert_eq!(client.cached_address_at(last).as_deref(), Some("a:1"));
    assert!(client.cached_address_at(secs(15)).is_none());
}

#[test]
fn cache_without_a_ttl_gives_nothing_back() {
    let mut client = LeaderClient::new("p", secs(0));
    client.refresh_at(found("a:1"), 1_200, secs(10)).unwrap();
    assert!(client.cached_address_at(secs(10)).is_none());
}

#[test]
fn longest_ttl_does_not_overflow() {
    let mut client = LeaderClient::new("p", Duration::new(u64::MAX, 999_999_999));
    let late = Duration::new(u64::MAX, 999_999_999);
    client.refresh_at(found("a:1"), 1_200, late).unwrap();
    assert_eq!(client.cached_address_at(late).as_deref(), Some("a:1"));
}

#[test]
fn no_leader_without_a_valid_lease() {
    let mut client = LeaderClient::new("p", secs(5));
    assert!(matches!(
        client.refresh_at(Ok(None), 0, secs(0)),
        Err(Error::NoLeader)
    ));
    assert!(matches!(
        client.refresh_at(found("a:1"), 1_500, secs(0)),
        Err(Error::NoLeader)
    ));
    assert!(matches!(
        client.refresh_at(Err(Error::NoEtag), 0, secs(0)),
        Err(Error::NoEtag)
    ));
    assert!(client.cached_address_at(secs(0)).is_none());
}

#[test]
fn failed_refresh_keeps_the_cache() {
    let mut client = LeaderClient::new("p", secs(5));
    client.refresh_at(found("a:1"), 1_200, secs(0)).unwrap();
    assert!(client.refresh_at(Ok(None), 1_200, secs(1)).is_err());
    assert_eq!(client.cached_address_at(secs(1)).as_deref(), Some("a:1"));
}

#[test]
fn client_runs_on_the_real_clocks() {
    let mut client = LeaderClient::new("p", secs(3_600));
    assert!(matches!(client.leader_address(), Lookup::ReadLockfile));
    let mut fresh = lease("a:1");
    fresh.acquired_at_ms = os_discovery::clock::now_ms();
    fresh.lease_duration_ms = 600_000;
    let read = Ok(Some((fresh, "e".to_string())));
    assert_eq!(client.refresh(read).unwrap(), "a:1");
    assert!(matches!(client.leader_address(), Lookup::Cached(a) if a == "a:1"));
    assert_eq!(client.cached_address().as_deref(), Some("a:1"));
    client.invalidate();
    assert!(matches!(client.leader_address(), Lookup::ReadLockfile));
    assert!(matches!(client.refresh(found("old:1")), Err(Error::NoLeader)));
}

#[test]
fn real_cache_expires() {
    let mut client = LeaderClient::new("p", Duration::from_millis(30));
    let mut fresh = lease("a:1");
    fresh.acquired_at_ms = os_discovery::clock::now_ms();
    fresh.lease_duration_ms = 600_000;
    client.refresh(Ok(Some((fresh, "e".to_string())))).unwrap();
    let started = std::time::Instant::now();
    while started.elapsed() < std::time::Duration::from_millis(60) {}
    assert!(client.cached_address().is_none());
}

#[test]
fn client_and_observer_see_the_same_leader() {
    let mut client = LeaderClient::new("p", secs(5));
    let observed = LeaderElection::current_leader_at(found("a:1"), 1_200).unwrap();
    let address = client.refresh_at(found("a:1"), 1_200, secs(0)).unwrap();
    assert_eq!(observed.unwrap().address, address);
}

#[test]
fn gone_leaders_invalidate_the_cache() {
    assert!(failure(true, false, None).should_invalidate());
    assert!(failure(false, true, None).should_invalidate());
    for status in [502, 503, 504] {
        assert!(failure(false, false, Some(status)).should_invalidate());
    }
    for status in [200, 404, 500, 501, 505] {
        assert!(!failure(false, false, Some(status)).should_invalidate());
    }
    assert!(!failure(false, false, None).should_invalidate());
}

type Step = RequestStep<u8, HttpFailure>;

fn resolved(address: &str) -> RequestEvent<u8, HttpFailure> {
    RequestEvent::Resolved(Ok(address.to_string()))
}

#[test]
fn first_answer_ends_the_request() {
    let mut client = LeaderClient::new("p", secs(5));
    let mut request = Request::start();
    let step: Step = client.with_leader(&mut request, resolved("a:1"));
    assert!(matches!(step, RequestStep::Call(a) if a == "a:1"));
    let step: Step = client.with_leader(&mut request, RequestEvent::Answered(Ok(9)));
    assert!(matches!(step, RequestStep::Done(Ok(9))));
}

#[test]
fn other_transport_errors_are_not_retried() {
    let mut client = LeaderClient::new("p", secs(3_600));
    client.refresh_at(found("a:1"), 1_200, secs(0)).unwrap();
    let mut request = Request::start();
    let _: Step = client.with_leader(&mut request, resolved("a:1"));
    let refused = failure(false, false, Some(404));
    let step: Step = client.with_leader(&mut request, RequestEvent::Answered(Err(refused)));
    assert!(matches!(
        step,
        RequestStep::Done(Err(LeaderError::Transport(e))) if e == refused
    ));
    assert_eq!(client.cached_address_at(secs(1)).as_deref(), Some("a:1"));
}

#[test]
fn gone_leader_is_looked_up_again_once() {
    let mut client = LeaderClient::new("p", secs(3_600));
    client.refresh_at(found("a:1"), 1_200, secs(0)).unwrap();
    let gone = failure(true, false, None);
    let mut request = Request::start();
    let _: Step = client.with_leader(&mut request, resolved("a:1"));
    let step: Step = client.with_leader(&mut request, RequestEvent::Answered(Err(gone)));
    assert!(matches!(step, RequestStep::Resolve));
    assert!(client.cached_address_at(secs(0)).is_none());
    let step: Step = client.with_leader(&mut request, resolved("b:1"));
    assert!(matches!(step, RequestStep::Call(a) if a == "b:1"));
    let step: Step = client.with_leader(&mut request, RequestEvent::Answered(Err(gone)));
    assert!(matches!(
        step,
        RequestStep::Done(Err(LeaderError::Transport(e))) if e == gone
    ));
}

#[test]
fn second_answer_is_the_result() {
    let mut client = LeaderClient::new("p", secs(5));
    let mut request = Request::start();
    let _: Step = client.with_leader(&mut request, resolved("a:1"));
    let gone: RequestEvent<u8, HttpFailure> =
        RequestEvent::Answered(Err(failure(false, true, None)));
    let _: Step = client.with_leader_given(&mut request, gone, true);
    let _: Step = client.with_leader(&mut request, resolved("b:1"));
    let step: Step = client.with_leader(&mut request, RequestEvent::Answered(Ok(4)));
    assert!(matches!(step, RequestStep::Done(Ok(4))));
}

#[test]
fn unknown_leader_ends_the_request() {
    let mut client = LeaderClient::new("p", secs(5));
    let mut request = Request::start();
    let unknown: RequestEvent<u8, HttpFailure> = RequestEvent::Resolved(Err(Error::NoLeader));
    let step: Step = client.with_leader(&mut request, unknown);
    assert!(matches!(
        step,
        RequestStep::Done(Err(LeaderError::Discovery(Error::NoLeader)))
    ));
}

/// Looks up every host name in vain.
struct NoSuchHost;

impl reqwest::dns::Resolve for NoSuchHost {
    fn resolve(&self, _: reqwest::dns::Name) -> reqwest::dns::Resolving {
        Box::pin(async { Err("no such host".into()) })
    }
}

/// Looks up host names for ever.
struct SilentHost;

impl reqwest::dns::Resolve for SilentHost {
    fn resolve(&self, _: reqwest::dns::Name) -> reqwest::dns::Resolving {
        Box::pin(futures::future::pending())
    }
}

/// What a request to a host that is looked up like this ends in.
fn failed_request<R: reqwest::dns::Resolve + 'static>(resolver: R) -> reqwest::Error {
    let request = async {
        reqwest::Client::builder()
            .no_proxy()
            .dns_resolver(std::sync::Arc::new(resolver))
            .build()
            .unwrap()
            .get("http://leader.test/")
            .timeout(std::time::Duration::from_millis(500))
            .send()
            .await
            .unwrap_err()
    };
    tokio::runtime::Builder::new_current_thread()
        .enable_all()
        .build()
        .unwrap()
        .block_on(request)
}

#[test]
fn failed_connection_is_retried_at_a_fresh_address() {
    let error = failed_request(NoSuchHost);
    assert!(error.is_connect() && !error.is_timeout());
    assert!(error.should_invalidate());
    let mut client = LeaderClient::new("p", secs(3_600));
    client.refresh_at(found("a:1"), 1_200, secs(0)).unwrap();
    let mut request = Request::start();
    let event: RequestEvent<u8, reqwest::Error> = RequestEvent::Resolved(Ok("a:1".to_string()));
    client.with_leader(&mut request, event);
    let event: RequestEvent<u8, reqwest::Error> = RequestEvent::Answered(Err(error));
    let step = client.with_leader(&mut request, event);
    assert!(matches!(step, RequestStep::Resolve));
    assert!(client.cached_address_at(secs(1)).is_none());
}

#[test]
fn overdue_answer_invalidates_the_cache() {
    let error = failed_request(SilentHost);
    assert!(error.is_timeout() && !error.is_connect());
    assert!(error.should_invalidate());
}

#[test]
fn status_of_the_response_decides() {
    for (status, gone) in [
        (502, true),
        (503, true),
        (504, true),
        (400, false),
        (404, false),
        (500, false),
        (501, false),
        (505, false),
    ] {
        let response = http::Response::builder().status(status).body("").unwrap();
        let error = reqwest::Response::from(response)
            .error_for_status()
            .unwrap_err();
        assert_eq!(error.should_invalidate(), gone, "{status}");
    }
}

#[test]
fn request_that_was_never_sent_keeps_the_cache() {
    let error = reqwest::Client::new().get("no address").build().unwrap_err();
    assert!(!error.should_invalidate());
}
