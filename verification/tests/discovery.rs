use os_discovery::discovery::{node_path, nodes_path, presence_written, write_presence_at};
use os_discovery::{
    Beat, BeatEvent, DiscoveryConfig, DiscoveryService, Duration, Error, ListEvent, NodeInfo, StoreError, WriteReply,
};
use std::collections::HashMap;

fn store_failure(text: &str) -> object_store::Error {
    object_store::Error::Generic {
        store: "test",
        source: text.to_string().into(),
    }
}

fn json_failure() -> serde_json::Error {
    serde_json::from_slice::<serde_json::Value>(b"nope").unwrap_err()
}

fn config(namespace: &str) -> DiscoveryConfig {
    DiscoveryConfig {
        namespace: namespace.to_string(),
        heartbeat_interval: Duration::from_secs(5),
        node_ttl: Duration::from_secs(15),
    }
}

fn node(node_id: &str, last_heartbeat_ms: u64) -> NodeInfo {
    NodeInfo {
        node_id: node_id.to_string(),
        address: "a:1".to_string(),
        last_heartbeat_ms,
        metadata: HashMap::new(),
    }
}

fn member() -> DiscoveryService {
    DiscoveryService::register(
        config("prod"),
        "n1".to_string(),
        "10.0.0.1:80".to_string(),
        HashMap::new(),
        WriteReply::Stored,
    )
    .unwrap()
}

#[test]
fn entries_lie_under_the_nodes_of_the_namespace() {
    assert_eq!(nodes_path(&config("prod")), "prod/nodes");
    assert_eq!(node_path(&config("prod"), "node-1"), "prod/nodes/node-1");
    assert_eq!(nodes_path(&config("/prod/eu/")), "prod/eu/nodes");
    assert_eq!(node_path(&config("prod"), "a#b"), "prod/nodes/a%23b");
    assert_eq!(node_path(&config(""), "n"), "nodes/n");
}

#[test]
fn node_is_alive_for_the_ttl_after_its_heartbeat() {
    let ttl = Duration::from_millis(100);
    assert!(node("n", 1_000).is_alive_at(ttl, 1_000));
    assert!(node("n", 1_000).is_alive_at(ttl, 1_099));
    assert!(!node("n", 1_000).is_alive_at(ttl, 1_100));
    assert!(node("n", 1_000).is_alive_at(ttl, 0));
    assert!(!node("n", 1_000).is_alive_at(Duration::from_secs(0), 1_000));
}

#[test]
fn node_liveness_follows_the_wall_clock() {
    let now = os_discovery::clock::now_ms();
    assert!(node("n", now).is_alive(Duration::from_secs(600)));
    assert!(!node("n", now - 600_000).is_alive(Duration::from_secs(1)));
}

#[test]
fn presence_carries_identity_and_time() {
    let mut metadata = HashMap::new();
    metadata.insert("k".to_string(), "v".to_string());
    let (path, info) = write_presence_at(&config("prod"), "n1", "a:1", &metadata, 77);
    assert_eq!(path, "prod/nodes/n1");
    assert_eq!(info.node_id, "n1");
    assert_eq!(info.address, "a:1");
    assert_eq!(info.last_heartbeat_ms, 77);
    assert_eq!(info.metadata, metadata);
}

#[test]
fn member_refreshes_its_own_entry() {
    let service = member();
    assert_eq!(service.node_id(), "n1");
    assert_eq!(service.heartbeat_interval(), Duration::from_secs(5));
    assert_eq!(service.nodes_path(), "prod/nodes");
    assert_eq!(service.node_path(), "prod/nodes/n1");
    let before = os_discovery::clock::now_ms();
    let (path, info) = written(service.heartbeat(BeatEvent::Due));
    assert_eq!(path, "prod/nodes/n1");
    assert_eq!(info.node_id, "n1");
    assert_eq!(info.address, "10.0.0.1:80");
    assert!(before <= info.last_heartbeat_ms);
    assert!(info.last_heartbeat_ms <= os_discovery::clock::now_ms());
    assert!(info.is_alive(Duration::from_secs(60)));
}

fn written(beat: Beat) -> (String, NodeInfo) {
    match beat {
        Beat::Write(path, info) => (path, info),
        other => panic!("{other:?}"),
    }
}

#[test]
fn heartbeat_goes_on_after_a_failure() {
    let service = member();
    let (first_path, first) = written(service.heartbeat_at(BeatEvent::Due, 1_000));
    for reply in [
        WriteReply::Failed(StoreError::Other(store_failure("down"))),
        WriteReply::Unencodable(json_failure()),
        WriteReply::Stored,
    ] {
        let stored = matches!(reply, WriteReply::Stored);
        let pause = service.heartbeat_at(BeatEvent::Written(reply), 1_010);
        match pause {
            Beat::Wait(interval, failure) => {
                assert_eq!(interval, Duration::from_secs(5));
                assert_eq!(failure.is_none(), stored);
            }
            other => panic!("{other:?}"),
        }
        let (path, info) = written(service.heartbeat_at(BeatEvent::Due, 6_000));
        assert_eq!(path, first_path);
        assert_eq!(info.node_id, first.node_id);
        assert_eq!(info.address, first.address);
        assert_eq!(info.metadata, first.metadata);
        assert_eq!(info.last_heartbeat_ms, 6_000);
    }
    assert_eq!(first.last_heartbeat_ms, 1_000);
}

#[test]
fn registered_member_is_listed_once() {
    let service = member();
    let (_, own) = write_presence_at(&config("prod"), "n1", "10.0.0.1:80", &HashMap::new(), 90_000);
    let mut nodes = Vec::new();
    for event in [
        ListEvent::Decoded(node("other", 95_000)),
        ListEvent::Decoded(own),
        ListEvent::Decoded(node("dead", 0)),
    ] {
        assert!(service.list_nodes_at(&mut nodes, event, 100_000).is_ok());
    }
    let own: Vec<&NodeInfo> = nodes.iter().filter(|n| n.node_id == "n1").collect();
    assert_eq!(own.len(), 1);
    assert_eq!(own[0].address, "10.0.0.1:80");
    assert_eq!(own[0].last_heartbeat_ms, 90_000);
}

#[test]
fn registration_needs_the_first_write() {
    let refused = DiscoveryService::register(
        config("prod"),
        "n1".to_string(),
        "a".to_string(),
        HashMap::new(),
        WriteReply::Failed(StoreError::NotFound(store_failure("x"))),
    );
    assert!(matches!(refused.err(), Some(Error::Store(_))));
    let unencodable = DiscoveryService::register(
        config("prod"),
        "n1".to_string(),
        "a".to_string(),
        HashMap::new(),
        WriteReply::Unencodable(json_failure()),
    );
    assert!(matches!(unencodable.err(), Some(Error::Json(_))));
}

#[test]
fn presence_write_reports_its_failure() {
    assert!(presence_written(WriteReply::Stored).is_ok());
    let failed = WriteReply::Failed(StoreError::Other(store_failure("x")));
    assert!(matches!(presence_written(failed), Err(Error::Store(_))));
    let unencodable = WriteReply::Unencodable(json_failure());
    assert!(matches!(presence_written(unencodable), Err(Error::Json(_))));
}

#[test]
fn listing_holds_the_living_in_order() {
    let service = member();
    let mut nodes = Vec::new();
    let events = vec![
        ListEvent::Decoded(node("a", 90_000)),
        ListEvent::Decoded(node("dead", 10_000)),
        ListEvent::GetFailed(StoreError::NotFound(store_failure("deleted"))),
        ListEvent::Corrupt(json_failure()),
        ListEvent::Decoded(node("b", 85_001)),
        ListEvent::Decoded(node("just-dead", 85_000)),
    ];
    for event in events {
        assert!(service.list_nodes_at(&mut nodes, event, 100_000).is_ok());
    }
    let ids: Vec<&str> = nodes.iter().map(|n| n.node_id.as_str()).collect();
    assert_eq!(ids, vec!["a", "b"]);
}

#[test]
fn listing_ends_with_a_store_failure() {
    let service = member();
    let mut nodes = vec![node("a", 0)];
    let listing = ListEvent::ListFailed(store_failure("x"));
    assert!(matches!(
        service.list_nodes(&mut nodes, listing),
        Err(Error::Store(_))
    ));
    let get = ListEvent::GetFailed(StoreError::Precondition(store_failure("x")));
    assert!(matches!(
        service.list_nodes(&mut nodes, get),
        Err(Error::Store(_))
    ));
    let unreadable = ListEvent::Unreadable(store_failure("cut off"));
    assert!(matches!(
        service.list_nodes(&mut nodes, unreadable),
        Err(Error::Store(e)) if e.to_string().contains("cut off")
    ));
    assert_eq!(nodes.len(), 1);
    let now = os_discovery::clock::now_ms();
    let fresh = ListEvent::Decoded(node("b", now));
    assert!(service.list_nodes(&mut nodes, fresh).is_ok());
    assert_eq!(nodes.len(), 2);
}

#[test]
fn deregistration_needs_the_entry() {
    assert!(DiscoveryService::deregister(Ok(())).is_ok());
    let missing = StoreError::NotFound(store_failure("x"));
    assert!(matches!(
        DiscoveryService::deregister(Err(missing)),
        Err(Error::Store(_))
    ));
}
