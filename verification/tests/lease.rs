use os_discovery::clock::{now_ms, unix_ms};
use os_discovery::lease::{
    lock_path, make_lease, make_lease_at, read_lease_body, read_lease_meta, LockfileBody,
};
use os_discovery::{Config, Duration, Error, Lease, StoreError};
use std::collections::HashMap;

fn store_failure(text: &str) -> object_store::Error {
    object_store::Error::Generic {
        store: "test",
        source: text.to_string().into(),
    }
}

fn json_failure() -> serde_json::Error {
    serde_json::from_slice::<serde_json::Value>(b"{").unwrap_err()
}

fn lease_at(acquired_at_ms: u64, lease_duration_ms: u64) -> Lease {
    Lease {
        node_id: "node-1".to_string(),
        address: "10.0.0.1:8080".to_string(),
        term: 7,
        acquired_at_ms,
        lease_duration_ms,
        metadata: HashMap::new(),
    }
}

fn system_ms() -> u64 {
    std::time::SystemTime::now()
        .duration_since(std::time::UNIX_EPOCH)
        .unwrap()
        .as_millis() as u64
}

#[test]
fn lockfile_path_is_prefix_and_leader() {
    assert_eq!(lock_path("my-service"), "my-service/leader");
    assert_eq!(lock_path("team_a/my-service"), "team_a/my-service/leader");
}

#[test]
fn lockfile_path_has_the_form_of_object_paths() {
    assert_eq!(lock_path(""), "leader");
    assert_eq!(lock_path("/"), "leader");
    assert_eq!(lock_path("/a//b/"), "a/b/leader");
    assert_eq!(lock_path("a*b"), "a%2Ab/leader");
    assert_eq!(lock_path(".."), "%2E%2E/leader");
    assert_eq!(
        lock_path("x/50%"),
        object_store::path::Path::from("x/50%/leader").as_ref()
    );
}

#[test]
fn lease_is_valid_for_its_stamped_lifetime() {
    let lease = lease_at(1_000, 500);
    assert!(lease.is_valid_at(1_000));
    assert!(lease.is_valid_at(1_499));
    assert!(!lease.is_valid_at(1_500));
    assert!(!lease.is_valid_at(u64::MAX));
}

#[test]
fn lease_from_a_clock_ahead_is_valid() {
    assert!(lease_at(1_000, 1).is_valid_at(0));
    assert!(!lease_at(1_000, 0).is_valid_at(0));
    assert!(lease_at(u64::MAX, u64::MAX).is_valid_at(u64::MAX));
}

#[test]
fn lease_validity_follows_the_wall_clock() {
    let now = system_ms();
    assert!(lease_at(now, 600_000).is_valid());
    assert!(!lease_at(now - 600_000, 1_000).is_valid());
}

#[test]
fn made_lease_carries_identity_term_and_ttl() {
    let mut metadata = HashMap::new();
    metadata.insert("zone".to_string(), "eu".to_string());
    let lease = make_lease_at("n", "a:1", &metadata, 3, &Config::default(), 42);
    assert_eq!(lease.node_id, "n");
    assert_eq!(lease.address, "a:1");
    assert_eq!(lease.term, 3);
    assert_eq!(lease.acquired_at_ms, 42);
    assert_eq!(lease.lease_duration_ms, 15_000);
    assert_eq!(lease.metadata, metadata);
}

#[test]
fn made_lease_is_stamped_with_the_wall_clock() {
    let before = system_ms();
    let lease = make_lease("n", "a:1", &HashMap::new(), 1, &Config::default());
    let after = system_ms();
    assert!(before <= lease.acquired_at_ms && lease.acquired_at_ms <= after);
    assert!(lease.is_valid());
}

#[test]
fn very_long_lease_lasts_as_long_as_can_be_stamped() {
    for lease_duration in [
        Duration::new(u64::MAX, 999_999_999),
        Duration::from_secs(1 << 61),
    ] {
        let config = Config {
            lease_duration,
            ..Config::default()
        };
        let lease = make_lease_at("n", "a", &HashMap::new(), 1, &config, 5);
        assert_eq!(lease.lease_duration_ms, u64::MAX);
        assert!(lease.is_valid_at(5));
        assert!(lease.is_valid_at(u64::MAX));
    }
}

#[test]
fn leader_info_is_what_the_lease_says() {
    let mut lease = lease_at(0, 0);
    lease.metadata.insert("k".to_string(), "v".to_string());
    let info = lease.into_leader_info();
    assert_eq!(info.node_id, "node-1");
    assert_eq!(info.address, "10.0.0.1:8080");
    assert_eq!(info.term, 7);
    assert_eq!(info.metadata.get("k").map(String::as_str), Some("v"));
}

#[test]
fn lockfile_needs_an_etag() {
    assert!(matches!(
        read_lease_meta(Ok(Some("e1".to_string()))),
        Ok(Some(etag)) if etag == "e1"
    ));
    assert!(matches!(read_lease_meta(Ok(None)), Err(Error::NoEtag)));
}

#[test]
fn missing_lockfile_is_no_error() {
    let missing = StoreError::NotFound(store_failure("gone"));
    assert!(matches!(read_lease_meta(Err(missing)), Ok(None)));
    for failure in [
        StoreError::AlreadyExists(store_failure("f")),
        StoreError::Precondition(store_failure("f")),
        StoreError::Other(store_failure("f")),
    ] {
        match read_lease_meta(Err(failure)) {
            Err(Error::Store(e)) => assert_eq!(e.to_string(), "Generic test error: f"),
            other => panic!("{other:?}"),
        }
    }
}

#[test]
fn lockfile_content_is_read_with_its_etag() {
    let read = read_lease_body("e1".to_string(), LockfileBody::Decoded(lease_at(1, 2)));
    match read {
        Ok(Some((lease, etag))) => {
            assert_eq!(etag, "e1");
            assert_eq!(lease.acquired_at_ms, 1);
            assert_eq!(lease.lease_duration_ms, 2);
        }
        other => panic!("{other:?}"),
    }
    let malformed = LockfileBody::Malformed(json_failure());
    assert!(matches!(
        read_lease_body("e".to_string(), malformed),
        Err(Error::Json(_))
    ));
    let unreadable = LockfileBody::Unreadable(store_failure("cut off"));
    assert!(matches!(
        read_lease_body("e".to_string(), unreadable),
        Err(Error::Store(_))
    ));
}

#[test]
fn wall_clock_is_read_in_milliseconds() {
    let before = system_ms();
    let now = now_ms();
    let after = system_ms();
    assert!(before <= now && now <= after);
    assert_eq!(unix_ms(Some(Duration::new(2, 345_999_999))), 2_345);
    assert_eq!(unix_ms(None), 0);
}
