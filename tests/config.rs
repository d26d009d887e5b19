use barge::{Config, ConfigViolation};

fn test_instance() -> Config {
    Config {
        send_heartbeat_period: 400_000,
        send_heartbeat_interval_min: 200_000,
        heartbeat_timeout_min: 450_000,
        heartbeat_timeout_max: 500_000,
        election_timeout_min: 420_000,
        election_timeout_max: 460_000,
        peer_uris: vec!["a".to_string(), "b".to_string()],
    }
}

#[test]
fn validate_test_instance() {
    assert!(test_instance().validate().is_ok());
}

#[test]
fn zero_heartbeat_period() {
    let mut c = test_instance();
    c.send_heartbeat_period = 0;
    assert!(c.validate().is_err());
}

#[test]
fn bad_heartbeat_timeout_min() {
    let mut c = test_instance();
    c.heartbeat_timeout_min = c.send_heartbeat_period;
    assert!(c.validate().is_err());
}

#[test]
fn multiple_timeout_error() {
    let mut c = test_instance();
    c.heartbeat_timeout_min = c.heartbeat_timeout_max + 1_000;
    c.election_timeout_min = c.election_timeout_max;
    assert!(c.validate().is_err());
}

#[test]
fn zero_period_message_names_the_field() {
    let mut c = test_instance();
    c.send_heartbeat_period = 0;
    let e = c.validate().unwrap_err();
    assert!(e.message().contains("send_heartbeat_period cannot be 0"));
    assert_eq!(e.violations[0], ConfigViolation::ZeroHeartbeatPeriod);
}

#[test]
fn zero_period_reports_each_rule_it_breaks() {
    let mut c = test_instance();
    c.send_heartbeat_period = 0;
    let e = c.validate().unwrap_err();
    assert_eq!(
        e.violations,
        vec![
            ConfigViolation::ZeroHeartbeatPeriod,
            ConfigViolation::PeriodNotAboveIntervalMin { period: 0, interval_min: 200_000 },
        ]
    );
    assert_eq!(
        e.message(),
        "send_heartbeat_period cannot be 0; Expect send_heartbeat_period (0ns) > send_heartbeat_interval_min (200ms)"
    );
}

#[test]
fn zero_interval_is_reported() {
    let mut c = test_instance();
    c.send_heartbeat_interval_min = 0;
    let e = c.validate().unwrap_err();
    assert_eq!(e.violations, vec![ConfigViolation::ZeroHeartbeatIntervalMin]);
    assert_eq!(e.message(), "send_heartbeat_interval_min cannot be 0");
}

#[test]
fn heartbeat_timeout_at_period_is_reported_once() {
    let mut c = test_instance();
    c.heartbeat_timeout_min = c.send_heartbeat_period;
    let e = c.validate().unwrap_err();
    assert_eq!(
        e.violations,
        vec![ConfigViolation::HeartbeatTimeoutNotAbovePeriod { timeout_min: 400_000, period: 400_000 }]
    );
    assert_eq!(
        e.message(),
        "Expect heartbeat_timeout_min (400ms) > send_heartbeat_period (400ms)"
    );
}

#[test]
fn both_timeout_ranges_empty() {
    let mut c = test_instance();
    c.heartbeat_timeout_min = c.heartbeat_timeout_max + 1_000;
    c.election_timeout_min = c.election_timeout_max;
    let e = c.validate().unwrap_err();
    assert_eq!(
        e.violations,
        vec![
            ConfigViolation::HeartbeatTimeoutRangeEmpty { timeout_max: 500_000, timeout_min: 501_000 },
            ConfigViolation::ElectionTimeoutRangeEmpty { timeout_max: 460_000, timeout_min: 460_000 },
        ]
    );
    assert_eq!(
        e.message(),
        "Expect heartbeat_timeout_max (500ms) > heartbeat_timeout_min (501ms); Expect election_timeout_max (460ms) > election_timeout_min (460ms)"
    );
}

#[test]
fn odd_peer_count_is_reported() {
    let mut c = test_instance();
    c.peer_uris.push("c".to_string());
    let e = c.validate().unwrap_err();
    assert_eq!(e.violations, vec![ConfigViolation::OddPeerCount { peers: 3 }]);
    assert_eq!(e.message(), "Expect even number of peers (= 3)");
}

#[test]
fn no_peers_is_valid() {
    let mut c = test_instance();
    c.peer_uris.clear();
    assert!(c.validate().is_ok());
}

#[test]
fn messages_of_one_rejection_are_distinct() {
    let c = Config {
        send_heartbeat_period: 0,
        send_heartbeat_interval_min: 0,
        heartbeat_timeout_min: 0,
        heartbeat_timeout_max: 0,
        election_timeout_min: 0,
        election_timeout_max: 0,
        peer_uris: vec!["a".to_string()],
    };
    let e = c.validate().unwrap_err();
    assert_eq!(e.violations.len(), 7);
    let texts: Vec<String> = e.violations.iter().map(|v| v.message()).collect();
    for i in 0..texts.len() {
        for j in (i + 1)..texts.len() {
            assert_ne!(texts[i], texts[j]);
        }
    }
}

#[test]
fn default_config_values() {
    let c = Config::new();
    assert_eq!(c.send_heartbeat_period, 100_000);
    assert_eq!(c.send_heartbeat_interval_min, 500_000);
    assert_eq!(c.heartbeat_timeout_min, 900_000);
    assert_eq!(c.heartbeat_timeout_max, 1_100_000);
    assert_eq!(c.election_timeout_min, 900_000);
    assert_eq!(c.election_timeout_max, 1_100_000);
    assert!(c.peer_uris.is_empty());
    assert!(c.validate().is_err());
}

#[test]
fn drawn_timeouts_lie_in_their_ranges() {
    let c = test_instance();
    for _ in 0..200 {
        let h = c.pick_heartbeat_timeout();
        assert!((450_000..=500_000).contains(&h));
        let e = c.pick_election_timeout();
        assert!((420_000..=460_000).contains(&e));
    }
}

#[test]
fn single_point_range_draws_that_point() {
    let mut c = test_instance();
    c.election_timeout_min = 7;
    c.election_timeout_max = 7;
    assert_eq!(c.pick_election_timeout(), 7);
}
