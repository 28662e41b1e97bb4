use os_discovery::{Config, Duration, Error, LeaderError, StoreError};

fn store_failure(text: &str) -> object_store::Error {
    object_store::Error::Generic {
        store: "test",
        source: text.to_string().into(),
    }
}

#[test]
fn durations_count_like_those_of_std() {
    for (secs, nanos) in [
        (0, 0),
        (0, 999_999),
        (1, 1_000_000),
        (15, 0),
        (u64::MAX, 999_999_999),
    ] {
        let ours = Duration::new(secs, nanos);
        let theirs = std::time::Duration::new(secs, nanos);
        assert_eq!(ours.as_millis(), theirs.as_millis());
        assert_eq!(ours.as_nanos(), theirs.as_nanos());
        assert_eq!(
            ours.as_millis_u64() as u128,
            theirs.as_millis().min(u64::MAX as u128)
        );
        assert_eq!(ours.as_secs(), theirs.as_secs());
        assert_eq!(ours.subsec_nanos(), theirs.subsec_nanos());
    }
    assert_eq!(Duration::new(1 << 61, 0).as_millis_u64(), u64::MAX);
    assert_eq!(Duration::new(0, 0).as_millis_up(), 0);
    assert_eq!(Duration::new(0, 1).as_millis_up(), 1);
    assert_eq!(Duration::new(1, 1_000_000).as_millis_up(), 1_001);
    assert_eq!(Duration::new(1, 1_000_001).as_millis_up(), 1_002);
    assert_eq!(Duration::from_secs(3), Duration::new(3, 0));
    assert_eq!(Duration::from_millis(1_500), Duration::new(1, 500_000_000));
    assert_eq!(
        Duration::from_millis(u64::MAX).as_millis(),
        u64::MAX as u128
    );
}

#[test]
fn default_config_leaves_three_renewals_per_lease() {
    let config = Config::default();
    assert_eq!(config.lease_duration, Duration::from_secs(15));
    assert_eq!(config.heartbeat_interval, Duration::from_secs(5));
    assert_eq!(config.election_timeout_min, Duration::from_secs(10));
    assert_eq!(config.election_timeout_max, Duration::from_secs(20));
    assert_eq!(config.check_interval, Duration::from_secs(3));
    assert_eq!(
        3 * config.heartbeat_interval.as_nanos(),
        config.lease_duration.as_nanos()
    );
    assert!(config.jitter_range_is_valid());
    let empty = Config {
        election_timeout_min: Duration::from_secs(21),
        ..Config::default()
    };
    assert!(!empty.jitter_range_is_valid());
}

#[test]
fn errors_say_what_went_wrong() {
    let json = serde_json::from_slice::<serde_json::Value>(b"").unwrap_err();
    assert_eq!(
        Error::Store(store_failure("x")).describe("down"),
        "object store: down"
    );
    assert_eq!(Error::Json(json).describe("eof"), "serialization: eof");
    assert_eq!(Error::Conflict.describe(""), "conditional write conflict");
    assert_eq!(
        Error::NoEtag.describe(""),
        "backend returned no ETag (required for conditional writes)"
    );
    assert_eq!(Error::NoLeader.describe(""), "no current leader");
}

#[test]
fn leader_errors_say_which_side_failed() {
    let discovery: LeaderError<u8> = LeaderError::Discovery(Error::NoLeader);
    assert_eq!(
        discovery.describe("no current leader"),
        "leader discovery: no current leader"
    );
    let transport: LeaderError<u8> = LeaderError::Transport(1);
    assert_eq!(transport.describe("refused"), "transport: refused");
}

#[test]
fn store_errors_keep_their_cause() {
    for failure in [
        StoreError::NotFound(store_failure("c")),
        StoreError::AlreadyExists(store_failure("c")),
        StoreError::Precondition(store_failure("c")),
        StoreError::Other(store_failure("c")),
    ] {
        assert_eq!(failure.into_cause().to_string(), "Generic test error: c");
    }
}

#[test]
fn failures_of_the_store_and_of_json_convert() {
    let store: Error = store_failure("x").into();
    assert!(matches!(store, Error::Store(_)));
    let json: Error = serde_json::from_slice::<serde_json::Value>(b"")
        .unwrap_err()
        .into();
    assert!(matches!(json, Error::Json(_)));
}
