use pg_sweep::json::database_stats_json;
use pg_sweep::snapshot::{collect_database_stats, DatabaseSnapshot, RawDatabaseMetrics};

fn raw_all_none() -> RawDatabaseMetrics {
    RawDatabaseMetrics {
        total_connections: None,
        active_connections: None,
        idle_connections: None,
        total_transactions: None,
        commits: None,
        rollbacks: None,
        blocks_read: None,
        blocks_hit: None,
        tuples_returned: None,
        tuples_fetched: None,
        tuples_inserted: None,
        tuples_updated: None,
        tuples_deleted: None,
        temp_files: None,
        temp_bytes: None,
        deadlocks: None,
        block_read_time_micros: None,
        block_write_time_micros: None,
    }
}

#[test]
fn connection_counts_pass_through_unchanged() {
    let mut raw = raw_all_none();
    raw.total_connections = Some(10);
    raw.active_connections = Some(3);
    raw.idle_connections = Some(7);
    let s = collect_database_stats(99, &raw);
    assert_eq!(s.total_connections, 10);
    assert_eq!(s.active_connections, 3);
    assert_eq!(s.idle_connections, 7);
}

#[test]
fn passthrough_does_not_cross_check_metrics() {
    // active + idle deliberately disagree with the total: the builder must
    // not recompute or validate one against the others.
    let mut raw = raw_all_none();
    raw.total_connections = Some(10);
    raw.active_connections = Some(9);
    raw.idle_connections = Some(9);
    let s = collect_database_stats(0, &raw);
    assert_eq!(s.total_connections, 10);
    assert_eq!(s.active_connections, 9);
    assert_eq!(s.idle_connections, 9);
}

#[test]
fn absent_metrics_become_zero() {
    let s = collect_database_stats(42, &raw_all_none());
    assert_eq!(s.timestamp, 42);
    assert_eq!(s.total_connections, 0);
    assert_eq!(s.active_connections, 0);
    assert_eq!(s.idle_connections, 0);
    assert_eq!(s.total_transactions, 0);
    assert_eq!(s.commits, 0);
    assert_eq!(s.rollbacks, 0);
    assert_eq!(s.blocks_read, 0);
    assert_eq!(s.blocks_hit, 0);
    assert_eq!(s.tuples_returned, 0);
    assert_eq!(s.tuples_fetched, 0);
    assert_eq!(s.tuples_inserted, 0);
    assert_eq!(s.tuples_updated, 0);
    assert_eq!(s.tuples_deleted, 0);
    assert_eq!(s.temp_files, 0);
    assert_eq!(s.temp_bytes, 0);
    assert_eq!(s.deadlocks, 0);
    assert_eq!(s.block_read_time_micros, 0);
    assert_eq!(s.block_write_time_micros, 0);
}

#[test]
fn timestamps_in_clock_order_stay_ordered() {
    let s1 = collect_database_stats(1000, &raw_all_none());
    let s2 = collect_database_stats(1000, &raw_all_none());
    let s3 = collect_database_stats(1001, &raw_all_none());
    assert!(s1.timestamp <= s2.timestamp);
    assert!(s2.timestamp <= s3.timestamp);
}

#[test]
fn zero_snapshot_renders_exactly() {
    let s = collect_database_stats(5, &raw_all_none());
    let doc = database_stats_json(&s);
    let expected = "{\"timestamp\":5,\"total_connections\":0,\"active_connections\":0,\"idle_connections\":0,\"total_transactions\":0,\"commits\":0,\"rollbacks\":0,\"blocks_read\":0,\"blocks_hit\":0,\"tuples_returned\":0,\"tuples_fetched\":0,\"tuples_inserted\":0,\"tuples_updated\":0,\"tuples_deleted\":0,\"temp_files\":0,\"temp_bytes\":0,\"deadlocks\":0,\"block_read_time\":0.000,\"block_write_time\":0.000}";
    assert_eq!(doc, expected);
}

#[test]
fn document_is_valid_json_with_every_field_numeric() {
    let raw = RawDatabaseMetrics {
        total_connections: Some(12),
        active_connections: Some(4),
        idle_connections: Some(8),
        total_transactions: Some(123456789),
        commits: Some(123400000),
        rollbacks: Some(56789),
        blocks_read: Some(-1),
        blocks_hit: Some(i64::MAX),
        tuples_returned: Some(i64::MIN),
        tuples_fetched: Some(0),
        tuples_inserted: Some(77),
        tuples_updated: None,
        tuples_deleted: Some(3),
        temp_files: Some(1),
        temp_bytes: Some(1024),
        deadlocks: None,
        block_read_time_micros: Some(1234567),
        block_write_time_micros: Some(999),
    };
    let s = collect_database_stats(1700000000, &raw);
    let doc = database_stats_json(&s);
    let v: serde_json::Value = serde_json::from_str(&doc).unwrap();
    let obj = v.as_object().unwrap();
    let fields = [
        "timestamp",
        "total_connections",
        "active_connections",
        "idle_connections",
        "total_transactions",
        "commits",
        "rollbacks",
        "blocks_read",
        "blocks_hit",
        "tuples_returned",
        "tuples_fetched",
        "tuples_inserted",
        "tuples_updated",
        "tuples_deleted",
        "temp_files",
        "temp_bytes",
        "deadlocks",
        "block_read_time",
        "block_write_time",
    ];
    assert_eq!(obj.len(), fields.len());
    for f in fields {
        assert!(obj.get(f).unwrap().is_number(), "field {} must be numeric", f);
    }
    assert_eq!(v["timestamp"].as_u64(), Some(1700000000));
    assert_eq!(v["total_connections"].as_i64(), Some(12));
    assert_eq!(v["blocks_read"].as_i64(), Some(-1));
    assert_eq!(v["blocks_hit"].as_i64(), Some(i64::MAX));
    assert_eq!(v["tuples_returned"].as_i64(), Some(i64::MIN));
    assert_eq!(v["tuples_updated"].as_i64(), Some(0));
    assert_eq!(v["deadlocks"].as_i64(), Some(0));
    assert_eq!(v["block_read_time"].as_f64(), Some(1234.567));
    assert_eq!(v["block_write_time"].as_f64(), Some(0.999));
}

#[test]
fn snapshot_value_is_determined_by_inputs() {
    let mut raw = raw_all_none();
    raw.commits = Some(21);
    let a = collect_database_stats(7, &raw);
    let b = collect_database_stats(7, &raw);
    let expected = DatabaseSnapshot {
        timestamp: 7,
        total_connections: 0,
        active_connections: 0,
        idle_connections: 0,
        total_transactions: 0,
        commits: 21,
        rollbacks: 0,
        blocks_read: 0,
        blocks_hit: 0,
        tuples_returned: 0,
        tuples_fetched: 0,
        tuples_inserted: 0,
        tuples_updated: 0,
        tuples_deleted: 0,
        temp_files: 0,
        temp_bytes: 0,
        deadlocks: 0,
        block_read_time_micros: 0,
        block_write_time_micros: 0,
    };
    assert_eq!(a, expected);
    assert_eq!(b, expected);
}
