use os_discovery::election::{put_lease, random_jitter, set_state};
use os_discovery::{
    Action, Config, Duration, Error, Event, LeaderElection, LeaderInfo, Lease, Pause, PutMode,
    PutReply, Role, State, Step, StoreError,
};
use std::collections::HashMap;

fn store_failure(text: &str) -> object_store::Error {
    object_store::Error::Generic {
        store: "test",
        source: text.to_string().into(),
    }
}

fn json_failure() -> serde_json::Error {
    serde_json::from_slice::<serde_json::Value>(b"[").unwrap_err()
}

fn node(id: &str) -> LeaderElection {
    LeaderElection::start(
        "my-service",
        Config::default(),
        id.to_string(),
        format!("{id}:8080"),
        HashMap::new(),
    )
}

fn lease(id: &str, term: u64, acquired_at_ms: u64) -> Lease {
    Lease {
        node_id: id.to_string(),
        address: format!("{id}:8080"),
        term,
        acquired_at_ms,
        lease_duration_ms: 15_000,
        metadata: HashMap::new(),
    }
}

fn found(lease: Lease, etag: &str) -> Event {
    Event::Read(Ok(Some((lease, etag.to_string()))))
}

fn written(etag: &str) -> Event {
    Event::Put(Ok(etag.to_string()))
}

fn pause_of(step: &Step) -> Option<Pause> {
    match step.action {
        Action::Sleep(pause) => Some(pause),
        _ => None,
    }
}

fn put_of(step: Step) -> (Lease, PutMode) {
    match step.action {
        Action::Put(lease, mode) => (lease, mode),
        other => panic!("{other:?}"),
    }
}

/// A node that leads in the term 1 by the ETag "e1".
fn leader() -> LeaderElection {
    let mut election = node("a");
    election.step_at(Event::Read(Ok(None)), 0);
    election.step_at(Event::Slept, 100);
    let step = election.step_at(written("e1"), 100);
    assert!(step.notify);
    assert_eq!(pause_of(&step), Some(Pause::Heartbeat));
    election
}

#[test]
fn participant_starts_as_a_follower_in_no_term() {
    let election = node("a");
    assert_eq!(election.lock_path(), "my-service/leader");
    assert_eq!(election.state().role, Role::Follower);
    assert_eq!(election.state().term, 0);
    assert!(election.state().leader.is_none());
    assert!(!election.is_leader());
    assert!(!election.out_of_terms());
}

#[test]
fn absent_lockfile_is_created_after_the_jitter() {
    let mut election = node("a");
    let step = election.step_at(Event::Read(Ok(None)), 5_000);
    assert_eq!(pause_of(&step), Some(Pause::Jitter));
    assert!(!step.notify);
    let (lease, mode) = put_of(election.step_at(Event::Slept, 6_000));
    assert!(matches!(mode, PutMode::Create));
    assert_eq!(lease.node_id, "a");
    assert_eq!(lease.address, "a:8080");
    assert_eq!(lease.term, 1);
    assert_eq!(lease.acquired_at_ms, 6_000);
    assert_eq!(lease.lease_duration_ms, 15_000);
    let step = election.step_at(written("e1"), 6_000);
    assert!(step.notify);
    assert_eq!(pause_of(&step), Some(Pause::Heartbeat));
    assert!(election.is_leader());
    assert_eq!(election.state().term, 1);
}

#[test]
fn expired_lockfile_is_replaced_in_a_higher_term() {
    let mut election = node("a");
    let step = election.step_at(found(lease("b", 7, 0), "old"), 15_000);
    assert_eq!(pause_of(&step), Some(Pause::Jitter));
    assert!(step.notify);
    assert_eq!(election.state().term, 7);
    assert!(election.state().leader.is_none());
    let (lease, mode) = put_of(election.step_at(Event::Slept, 16_000));
    assert_eq!(lease.term, 8);
    assert!(matches!(mode, PutMode::Update(etag) if etag == "old"));
}

#[test]
fn fresh_lockfile_is_followed() {
    let mut election = node("a");
    let step = election.step_at(found(lease("b", 7, 0), "e"), 14_999);
    assert!(step.notify);
    assert_eq!(pause_of(&step), Some(Pause::Check));
    assert_eq!(election.state().role, Role::Follower);
    assert_eq!(election.state().term, 7);
    let leader = election.state().leader.as_ref().unwrap();
    assert_eq!(leader.node_id, "b");
    assert_eq!(leader.address, "b:8080");
    assert_eq!(leader.term, 7);
    let step = election.step_at(Event::Slept, 18_000);
    assert!(matches!(step.action, Action::Read));
    assert!(!step.notify);
    let step = election.step_at(found(lease("b", 7, 10_000), "e2"), 18_000);
    assert!(!step.notify);
}

#[test]
fn own_valid_lease_is_reclaimed_after_a_restart() {
    let mut election = node("a");
    let step = election.step_at(found(lease("a", 4, 0), "mine"), 10);
    assert!(step.notify);
    assert_eq!(pause_of(&step), Some(Pause::Heartbeat));
    assert!(election.is_leader());
    assert_eq!(election.state().term, 4);
    let (lease, mode) = put_of(election.step_at(Event::Slept, 20));
    assert_eq!(lease.term, 4);
    assert!(matches!(mode, PutMode::Update(etag) if etag == "mine"));
}

#[test]
fn own_expired_lease_is_raced_for() {
    let mut election = node("a");
    let step = election.step_at(found(lease("a", 4, 0), "mine"), 15_000);
    assert_eq!(pause_of(&step), Some(Pause::Jitter));
    let (lease, _) = put_of(election.step_at(Event::Slept, 15_001));
    assert_eq!(lease.term, 5);
}

#[test]
fn unreadable_lockfile_is_polled_again() {
    let mut election = node("a");
    let step = election.step_at(Event::Read(Err(Error::NoEtag)), 0);
    assert_eq!(pause_of(&step), Some(Pause::Check));
    assert!(!step.notify);
    let step = election.step_at(Event::Slept, 0);
    assert!(matches!(step.action, Action::Read));
}

#[test]
fn lost_race_leaves_a_follower() {
    let mut election = node("a");
    election.step_at(Event::Read(Ok(None)), 0);
    election.step_at(Event::Slept, 0);
    let step = election.step_at(Event::Put(Err(Error::Conflict)), 0);
    assert!(matches!(step.action, Action::Read));
    assert!(!step.notify);
    assert!(!election.is_leader());
    assert_eq!(election.state().term, 0);
}

#[test]
fn leader_renews_by_its_last_etag_in_the_same_term() {
    let mut election = leader();
    for (k, etag) in ["e1", "e2", "e3"].into_iter().enumerate() {
        let now = 5_000 * (k as u64 + 1);
        let (lease, mode) = put_of(election.step_at(Event::Slept, now));
        assert_eq!(lease.term, 1);
        assert_eq!(lease.acquired_at_ms, now);
        assert!(matches!(mode, PutMode::Update(e) if e == etag));
        let step = election.step_at(written(&format!("e{}", k + 2)), now);
        assert!(!step.notify);
        assert_eq!(pause_of(&step), Some(Pause::Heartbeat));
        assert!(election.is_leader());
    }
}

#[test]
fn failed_renewal_demotes_the_leader() {
    let mut election = leader();
    election.step_at(Event::Slept, 5_000);
    let step = election.step_at(Event::Put(Err(Error::Conflict)), 5_000);
    assert!(step.notify);
    assert!(matches!(step.action, Action::Read));
    assert!(!election.is_leader());
    assert_eq!(election.state().role, Role::Follower);
    assert_eq!(election.state().term, 1);
    let step = election.step_at(found(lease("b", 2, 5_000), "b1"), 5_001);
    assert!(step.notify);
    assert_eq!(election.state().term, 2);
}

#[test]
fn participant_runs_on_the_wall_clock() {
    let mut election = node("a");
    let now = os_discovery::clock::now_ms();
    let step = election.step(found(lease("b", 1, now), "e"));
    assert_eq!(pause_of(&step), Some(Pause::Check));
    election.step(Event::Slept);
    let step = election.step(found(lease("b", 1, now - 60_000), "e"));
    assert_eq!(pause_of(&step), Some(Pause::Jitter));
    let (lease, _) = put_of(election.step(Event::Slept));
    assert!(lease.acquired_at_ms >= now);
}

#[test]
fn last_term_is_noticed() {
    let mut election = node("a");
    election.step_at(found(lease("b", u64::MAX, 0), "e"), 20_000);
    assert!(election.out_of_terms());
    let mut election = node("a");
    election.step_at(found(lease("b", u64::MAX - 1, 0), "e"), 20_000);
    assert!(!election.out_of_terms());
    let (lease, _) = put_of(election.step_at(Event::Slept, 20_000));
    assert_eq!(lease.term, u64::MAX);
}

fn info(id: &str, address: &str) -> LeaderInfo {
    LeaderInfo {
        node_id: id.to_string(),
        address: address.to_string(),
        term: 1,
        metadata: HashMap::new(),
    }
}

#[test]
fn subscribers_hear_of_roles_terms_and_leaders() {
    let mut state = State {
        role: Role::Follower,
        term: 1,
        leader: None,
    };
    assert!(!set_state(&mut state, Role::Follower, 1, None));
    assert!(set_state(&mut state, Role::Follower, 2, None));
    assert!(set_state(&mut state, Role::Leader, 2, None));
    assert!(set_state(&mut state, Role::Leader, 2, Some(info("b", "b:1"))));
    assert!(set_state(&mut state, Role::Leader, 2, Some(info("c", "b:1"))));
    assert!(!set_state(&mut state, Role::Leader, 2, Some(info("c", "c:1"))));
    assert_eq!(state.leader.as_ref().unwrap().address, "b:1");
    assert!(set_state(&mut state, Role::Follower, 3, None));
    assert_eq!(state.role, Role::Follower);
    assert_eq!(state.term, 3);
    assert!(state.leader.is_none());
}

#[test]
fn conditional_write_reports_its_outcome() {
    let stored = put_lease(PutReply::Stored(Some("e".to_string())));
    assert!(matches!(stored, Ok(etag) if etag == "e"));
    assert!(matches!(
        put_lease(PutReply::Stored(None)),
        Err(Error::NoEtag)
    ));
    let exists = StoreError::AlreadyExists(store_failure("x"));
    assert!(matches!(
        put_lease(PutReply::Failed(exists)),
        Err(Error::Conflict)
    ));
    let precondition = StoreError::Precondition(store_failure("x"));
    assert!(matches!(
        put_lease(PutReply::Failed(precondition)),
        Err(Error::Conflict)
    ));
    let missing = StoreError::NotFound(store_failure("x"));
    assert!(matches!(
        put_lease(PutReply::Failed(missing)),
        Err(Error::Store(_))
    ));
    let other = StoreError::Other(store_failure("x"));
    assert!(matches!(
        put_lease(PutReply::Failed(other)),
        Err(Error::Store(_))
    ));
    assert!(matches!(
        put_lease(PutReply::Unencodable(json_failure())),
        Err(Error::Json(_))
    ));
}

#[test]
fn resigning_without_a_lockfile_is_fine() {
    let mut follower = node("a");
    let (outcome, step) = follower.resign(Ok(()));
    assert!(outcome.is_ok() && step.is_none());
    let missing = StoreError::NotFound(store_failure("x"));
    let (outcome, step) = follower.resign(Err(missing));
    assert!(outcome.is_ok() && step.is_none());
    let other = StoreError::Other(store_failure("x"));
    let (outcome, step) = follower.resign(Err(other));
    assert!(matches!(outcome, Err(Error::Store(_))));
    assert!(step.is_none());
}

#[test]
fn resigned_leader_is_a_follower_at_once() {
    for reply in [Ok(()), Err(StoreError::NotFound(store_failure("x")))] {
        let mut election = leader();
        let term = election.state().term;
        let (outcome, step) = election.resign(reply);
        assert!(outcome.is_ok());
        let step = step.unwrap();
        assert!(step.notify);
        assert!(matches!(step.action, Action::Read));
        assert!(!election.is_leader());
        assert_eq!(election.state().term, term);
        assert!(election.state().leader.is_none());
        // Nobody has taken over yet: it runs again like any other node.
        let step = election.step_at(Event::Read(Ok(None)), 1);
        assert_eq!(pause_of(&step), Some(Pause::Jitter));
    }
}

#[test]
fn leader_that_could_not_resign_leads_on() {
    let mut election = leader();
    let (outcome, step) = election.resign(Err(StoreError::Other(store_failure("x"))));
    assert!(matches!(outcome, Err(Error::Store(_))));
    assert!(step.is_none());
    assert!(election.is_leader());
    let step = election.step_at(Event::Slept, 5_000);
    assert!(matches!(step.action, Action::Put(_, PutMode::Update(_))));
}

#[test]
fn observer_sees_the_leader_of_a_valid_lease() {
    let read = Ok(Some((lease("b", 3, 0), "e".to_string())));
    let leader = LeaderElection::current_leader_at(read, 14_999).unwrap();
    assert_eq!(leader.unwrap().node_id, "b");
    let read = Ok(Some((lease("b", 3, 0), "e".to_string())));
    assert!(LeaderElection::current_leader_at(read, 15_000)
        .unwrap()
        .is_none());
    assert!(LeaderElection::current_leader(Ok(None)).unwrap().is_none());
    assert!(matches!(
        LeaderElection::current_leader(Err(Error::NoEtag)),
        Err(Error::NoEtag)
    ));
    let now = os_discovery::clock::now_ms();
    let read = Ok(Some((lease("b", 3, now), "e".to_string())));
    assert!(LeaderElection::current_leader(read).unwrap().is_some());
}

#[test]
fn jitter_is_drawn_from_the_range() {
    let config = Config {
        election_timeout_min: Duration::from_millis(500),
        election_timeout_max: Duration::from_millis(1_500_000),
        ..Config::default()
    };
    let draws: Vec<u128> = (0..200).map(|_| random_jitter(&config).as_millis()).collect();
    assert!(draws.iter().all(|ms| (500..=1_500_000).contains(ms)));
    assert!(draws.iter().any(|ms| *ms != draws[0]));
}

#[test]
fn jitter_keeps_within_the_bounds() {
    let jitter = |election_timeout_min, election_timeout_max| {
        let config = Config {
            election_timeout_min,
            election_timeout_max,
            ..Config::default()
        };
        assert!(config.jitter_range_is_valid());
        random_jitter(&config)
    };
    let exact = Duration::from_secs(2);
    assert_eq!(jitter(exact, exact), exact);
    // The lower bound is rounded up to whole milliseconds, the upper one down.
    let low = Duration::new(2, 999_999);
    let high = Duration::new(2, 1_999_999);
    assert_eq!(jitter(low, high), Duration::from_millis(2_001));
    // No whole number of milliseconds lies between the bounds.
    let between = Duration::new(0, 1_500_000);
    assert_eq!(jitter(between, between), between);
    assert_eq!(jitter(between, Duration::new(0, 1_700_000)), between);
    // The bounds are crossed within one millisecond.
    assert_eq!(
        jitter(Duration::new(0, 1_800_000), Duration::new(0, 1_200_000)),
        Duration::from_millis(1)
    );
    assert_eq!(jitter(Duration::new(2, 999_999), exact), exact);
    let longest = Duration::new(u64::MAX, 999_999_999);
    assert_eq!(jitter(longest, longest), longest);
}

#[test]
fn pauses_follow_the_configuration() {
    let election = node("a");
    assert!(election.has_jitter_range());
    assert_eq!(election.pause_duration(Pause::Check), Duration::from_secs(3));
    assert_eq!(
        election.pause_duration(Pause::Heartbeat),
        Duration::from_secs(5)
    );
    let jitter = election.pause_duration(Pause::Jitter).as_millis();
    assert!((10_000..=20_000).contains(&jitter));
}
