//! Participants around one in-memory object store.

use futures::executor::block_on;
use object_store::memory::InMemory;
use object_store::path::Path;
use object_store::{ObjectStore, PutOptions, UpdateVersion};
use os_discovery::election::put_lease;
use os_discovery::lease::{read_lease_body, read_lease_meta, LockfileBody};
use os_discovery::{
    Action, Config, Error, Event, LeaderElection, Lease, Pause, PutMode, PutReply, StoreError,
};
use serde_json::Value;
use std::collections::HashMap;

fn classify(e: object_store::Error) -> StoreError {
    match e {
        object_store::Error::NotFound { .. } => StoreError::NotFound(e),
        object_store::Error::AlreadyExists { .. } => StoreError::AlreadyExists(e),
        object_store::Error::Precondition { .. } => StoreError::Precondition(e),
        e => StoreError::Other(e),
    }
}

fn encode(lease: &Lease) -> Vec<u8> {
    let mut map = serde_json::Map::new();
    map.insert("node_id".to_string(), Value::from(lease.node_id.clone()));
    map.insert("address".to_string(), Value::from(lease.address.clone()));
    map.insert("term".to_string(), Value::from(lease.term));
    map.insert("at".to_string(), Value::from(lease.acquired_at_ms));
    map.insert("ttl".to_string(), Value::from(lease.lease_duration_ms));
    serde_json::to_vec(&Value::Object(map)).unwrap()
}

fn decode(bytes: &[u8]) -> Result<Lease, serde_json::Error> {
    let value: Value = serde_json::from_slice(bytes)?;
    Ok(Lease {
        node_id: value["node_id"].as_str().unwrap().to_string(),
        address: value["address"].as_str().unwrap().to_string(),
        term: value["term"].as_u64().unwrap(),
        acquired_at_ms: value["at"].as_u64().unwrap(),
        lease_duration_ms: value["ttl"].as_u64().unwrap(),
        metadata: HashMap::new(),
    })
}

fn read(store: &InMemory, path: &str) -> Result<Option<(Lease, String)>, Error> {
    let path = Path::parse(path).unwrap();
    let got = block_on(store.get(&path));
    let meta = match &got {
        Ok(result) => Ok(result.meta.e_tag.clone()),
        Err(_) => Err(()),
    };
    let (reply, result) = match (meta, got) {
        (Ok(etag), Ok(result)) => (Ok(etag), Some(result)),
        (_, Err(e)) => (Err(classify(e)), None),
        _ => unreachable!(),
    };
    match read_lease_meta(reply)? {
        None => Ok(None),
        Some(etag) => {
            let body = match block_on(result.unwrap().bytes()) {
                Err(e) => LockfileBody::Unreadable(e),
                Ok(bytes) => match decode(&bytes) {
                    Ok(lease) => LockfileBody::Decoded(lease),
                    Err(e) => LockfileBody::Malformed(e),
                },
            };
            read_lease_body(etag, body)
        }
    }
}

fn put(store: &InMemory, path: &str, lease: &Lease, mode: PutMode) -> Result<String, Error> {
    let mode = match mode {
        PutMode::Create => object_store::PutMode::Create,
        PutMode::Update(etag) => object_store::PutMode::Update(UpdateVersion {
            e_tag: Some(etag),
            version: None,
        }),
    };
    let options = PutOptions {
        mode,
        ..Default::default()
    };
    let path = Path::parse(path).unwrap();
    let reply = match block_on(store.put_opts(&path, encode(lease).into(), options)) {
        Ok(result) => PutReply::Stored(result.e_tag),
        Err(e) => PutReply::Failed(classify(e)),
    };
    put_lease(reply)
}

fn start(id: &str) -> (LeaderElection, Action) {
    let election = LeaderElection::start(
        "demo",
        Config::default(),
        id.to_string(),
        format!("{id}:80"),
        HashMap::new(),
    );
    (election, Action::Read)
}

/// Does what the node asks for, and hands it the answer.
fn advance(store: &InMemory, node: &mut (LeaderElection, Action), now: u64) -> bool {
    let action = std::mem::replace(&mut node.1, Action::Read);
    let event = match action {
        Action::Read => Event::Read(read(store, node.0.lock_path())),
        Action::Sleep(_) => Event::Slept,
        Action::Put(lease, mode) => Event::Put(put(store, node.0.lock_path(), &lease, mode)),
    };
    let step = node.0.step_at(event, now);
    node.1 = step.action;
    step.notify
}

/// Deletes the lockfile at the node's request, and hands it the answer.
fn resign(store: &InMemory, node: &mut (LeaderElection, Action)) -> Result<(), Error> {
    let path = Path::parse(node.0.lock_path()).unwrap();
    let reply = block_on(store.delete(&path)).map_err(classify);
    let (outcome, step) = node.0.resign(reply);
    if let Some(step) = step {
        node.1 = step.action;
    }
    outcome
}

#[test]
fn one_of_two_racing_nodes_wins() {
    let store = InMemory::new();
    let mut a = start("a");
    let mut b = start("b");
    for node in [&mut a, &mut b] {
        advance(&store, node, 0);
        advance(&store, node, 1);
        assert!(matches!(node.1, Action::Put(_, PutMode::Create)));
    }
    assert!(advance(&store, &mut b, 2));
    assert!(!advance(&store, &mut a, 2));
    assert!(b.0.is_leader());
    assert!(!a.0.is_leader());
    advance(&store, &mut a, 3);
    assert_eq!(a.0.state().leader.as_ref().unwrap().node_id, "b");
    assert_eq!(a.0.state().term, 1);
}

#[test]
fn silent_leader_is_usurped_in_a_higher_term() {
    let store = InMemory::new();
    let mut a = start("a");
    let mut b = start("b");
    for _ in 0..3 {
        advance(&store, &mut a, 0);
    }
    assert!(a.0.is_leader());
    advance(&store, &mut b, 10_000);
    assert!(matches!(b.1, Action::Sleep(Pause::Check)));
    advance(&store, &mut b, 15_000);
    advance(&store, &mut b, 15_000);
    assert!(matches!(b.1, Action::Sleep(Pause::Jitter)));
    advance(&store, &mut b, 25_000);
    assert!(advance(&store, &mut b, 25_000));
    assert!(b.0.is_leader());
    assert_eq!(b.0.state().term, 2);
    // The old leader has not noticed yet; its renewal is refused.
    assert!(a.0.is_leader());
    assert_eq!(a.0.state().term, 1);
    advance(&store, &mut a, 26_000);
    assert!(advance(&store, &mut a, 26_000));
    assert!(!a.0.is_leader());
    let (lease, _) = read(&store, "demo/leader").unwrap().unwrap();
    assert_eq!(lease.node_id, "b");
    assert_eq!(lease.term, 2);
}

#[test]
fn renewals_keep_the_lease_of_one_leader() {
    let store = InMemory::new();
    let mut a = start("a");
    let mut b = start("b");
    for _ in 0..3 {
        advance(&store, &mut a, 0);
    }
    for round in 1..20u64 {
        let now = round * 5_000;
        advance(&store, &mut a, now);
        advance(&store, &mut a, now);
        advance(&store, &mut b, now);
        assert!(a.0.is_leader());
        assert!(!b.0.is_leader());
    }
    let (lease, _) = read(&store, "demo/leader").unwrap().unwrap();
    assert_eq!(lease.term, 1);
    assert_eq!(lease.acquired_at_ms, 95_000);
}

#[test]
fn renewal_that_wins_the_race_keeps_the_leader() {
    let store = InMemory::new();
    let mut a = start("a");
    let mut b = start("b");
    for _ in 0..3 {
        advance(&store, &mut a, 0);
    }
    // b takes the lease to be expired, but a renews it during b's jitter.
    advance(&store, &mut b, 15_000);
    advance(&store, &mut a, 15_001);
    advance(&store, &mut a, 15_001);
    advance(&store, &mut b, 20_000);
    assert!(!advance(&store, &mut b, 20_000));
    assert!(a.0.is_leader());
    assert!(!b.0.is_leader());
}

#[test]
fn resigned_leader_is_succeeded() {
    let store = InMemory::new();
    let mut a = start("a");
    let mut b = start("b");
    for _ in 0..3 {
        advance(&store, &mut a, 0);
    }
    assert!(a.0.is_leader());
    resign(&store, &mut a).unwrap();
    assert!(!a.0.is_leader());
    assert!(matches!(a.1, Action::Read));
    resign(&store, &mut a).unwrap();
    advance(&store, &mut b, 10);
    assert!(matches!(b.1, Action::Sleep(Pause::Jitter)));
    advance(&store, &mut b, 20);
    advance(&store, &mut b, 20);
    assert!(b.0.is_leader());
    advance(&store, &mut a, 5_000);
    assert!(!a.0.is_leader());
    assert_eq!(a.0.state().leader.as_ref().unwrap().node_id, "b");
}

#[test]
fn follower_can_depose_the_leader() {
    let store = InMemory::new();
    let mut a = start("a");
    let mut b = start("b");
    for _ in 0..3 {
        advance(&store, &mut a, 0);
    }
    advance(&store, &mut b, 10);
    resign(&store, &mut b).unwrap();
    assert!(matches!(b.1, Action::Sleep(Pause::Check)));
    assert!(a.0.is_leader());
    advance(&store, &mut a, 5_000);
    assert!(advance(&store, &mut a, 5_000));
    assert!(!a.0.is_leader());
}

#[test]
fn race_for_an_expired_lockfile_has_one_winner() {
    let store = InMemory::new();
    let mut old = start("old");
    for _ in 0..3 {
        advance(&store, &mut old, 0);
    }
    let mut racers: Vec<(LeaderElection, Action)> =
        ["a", "b", "c"].iter().map(|id| start(id)).collect();
    for node in racers.iter_mut() {
        advance(&store, node, 20_000);
        advance(&store, node, 21_000);
        assert!(matches!(node.1, Action::Put(_, PutMode::Update(_))));
    }
    let told: Vec<bool> = racers
        .iter_mut()
        .map(|node| advance(&store, node, 22_000))
        .collect();
    assert_eq!(told, vec![true, false, false]);
    let leading: Vec<bool> = racers.iter().map(|node| node.0.is_leader()).collect();
    assert_eq!(leading, vec![true, false, false]);
    let (lease, _) = read(&store, "demo/leader").unwrap().unwrap();
    assert_eq!((lease.node_id.as_str(), lease.term), ("a", 2));
}

#[test]
fn restarted_leader_leads_again() {
    let store = InMemory::new();
    let mut a = start("a");
    for _ in 0..3 {
        advance(&store, &mut a, 0);
    }
    let mut again = start("a");
    advance(&store, &mut again, 1_000);
    assert!(again.0.is_leader());
    assert_eq!(again.0.state().term, 1);
    advance(&store, &mut again, 6_000);
    advance(&store, &mut again, 6_000);
    assert!(again.0.is_leader());
}

#[test]
fn leader_that_has_moved_says_so_with_its_next_renewal() {
    let store = InMemory::new();
    let mut a = start("a");
    for _ in 0..3 {
        advance(&store, &mut a, 0);
    }
    let moved = LeaderElection::start(
        "demo",
        Config::default(),
        "a".to_string(),
        "elsewhere:80".to_string(),
        HashMap::new(),
    );
    let mut again = (moved, Action::Read);
    advance(&store, &mut again, 1_000);
    assert!(again.0.is_leader());
    let (lease, _) = read(&store, "demo/leader").unwrap().unwrap();
    assert_eq!((lease.node_id.as_str(), lease.address.as_str()), ("a", "a:80"));
    advance(&store, &mut again, 6_000);
    advance(&store, &mut again, 6_000);
    let (lease, _) = read(&store, "demo/leader").unwrap().unwrap();
    assert_eq!((lease.node_id.as_str(), lease.address.as_str()), ("a", "elsewhere:80"));
    assert_eq!(lease.term, 1);
    // What it sends in its old place is refused.
    advance(&store, &mut a, 7_000);
    advance(&store, &mut a, 7_000);
    assert!(!a.0.is_leader());
    assert!(again.0.is_leader());
}
