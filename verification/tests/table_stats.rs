use pg_sweep::json::table_stats_json;
use pg_sweep::parse::parse_table_stats;
use pg_sweep::snapshot::{collect_table_stats, SnapshotError, TableRow, TableSnapshot};

fn row(schema: &str, table: &str, base: i64) -> TableRow {
    TableRow {
        schema_name: Some(schema.to_string()),
        table_name: Some(table.to_string()),
        seq_scan: Some(base),
        seq_tup_read: Some(base + 1),
        idx_scan: Some(base + 2),
        idx_tup_fetch: Some(base + 3),
        n_tup_ins: Some(base + 4),
        n_tup_upd: Some(base + 5),
        n_tup_del: Some(base + 6),
        n_live_tup: Some(base + 7),
        n_dead_tup: Some(base + 8),
        heap_blks_read: Some(base + 9),
        heap_blks_hit: Some(base + 10),
        idx_blks_read: Some(base + 11),
        idx_blks_hit: Some(base + 12),
    }
}

#[test]
fn zero_tables_yield_an_empty_map_not_a_failure() {
    let rows: Vec<TableRow> = Vec::new();
    let m = collect_table_stats(&rows).unwrap();
    assert_eq!(m.len(), 0);
    assert_eq!(table_stats_json(&m), "{}");
}

#[test]
fn empty_document_parses_back_to_the_empty_map() {
    let m = parse_table_stats("{}").unwrap();
    assert_eq!(m.len(), 0);
}

#[test]
fn null_counter_becomes_zero_in_the_table_snapshot() {
    let mut r = row("app", "events", 0);
    r.n_live_tup = Some(1000);
    r.n_dead_tup = Some(50);
    r.heap_blks_hit = None;
    let rows = vec![r];
    let m = collect_table_stats(&rows).unwrap();
    let t = *m.get(&"app.events".to_string()).unwrap();
    assert_eq!(t.live_rows, 1000);
    assert_eq!(t.dead_rows, 50);
    assert_eq!(t.heap_blocks_hit, 0);
}

#[test]
fn keys_are_schema_dot_table() {
    let rows = vec![row("public", "orders", 0), row("audit", "log", 100)];
    let m = collect_table_stats(&rows).unwrap();
    assert_eq!(m.len(), 2);
    assert!(m.get(&"public.orders".to_string()).is_some());
    assert!(m.get(&"audit.log".to_string()).is_some());
    assert!(m.get(&"public.log".to_string()).is_none());
    assert!(m.get(&"audit.orders".to_string()).is_none());
}

#[test]
fn missing_schema_name_is_fatal_with_no_partial_map() {
    let mut bad = row("public", "orders", 0);
    bad.schema_name = None;
    let rows = vec![row("public", "users", 0), bad, row("audit", "log", 5)];
    let r = collect_table_stats(&rows);
    assert!(matches!(r, Err(SnapshotError::MalformedRow)));
}

#[test]
fn missing_table_name_is_fatal() {
    let mut bad = row("public", "orders", 0);
    bad.table_name = None;
    let rows = vec![bad];
    assert!(matches!(collect_table_stats(&rows), Err(SnapshotError::MalformedRow)));
}

#[test]
fn duplicate_key_keeps_one_entry_with_the_later_values() {
    let rows = vec![row("public", "orders", 0), row("public", "orders", 100)];
    let m = collect_table_stats(&rows).unwrap();
    assert_eq!(m.len(), 1);
    let t = *m.get(&"public.orders".to_string()).unwrap();
    assert_eq!(t.sequential_scans, 100);
    assert_eq!(t.index_blocks_hit, 112);
}

#[test]
fn two_entry_map_round_trips_through_the_document() {
    let rows = vec![row("public", "orders", 5), row("public", "users", 40)];
    let m = collect_table_stats(&rows).unwrap();
    let doc = table_stats_json(&m);
    let back = parse_table_stats(&doc).unwrap();
    assert_eq!(back.len(), 2);
    let orders = *back.get(&"public.orders".to_string()).unwrap();
    let users = *back.get(&"public.users".to_string()).unwrap();
    assert_eq!(orders, *m.get(&"public.orders".to_string()).unwrap());
    assert_eq!(users, *m.get(&"public.users".to_string()).unwrap());
    assert_eq!(orders.sequential_scans, 5);
    assert_eq!(orders.sequential_rows_read, 6);
    assert_eq!(users.index_blocks_hit, 52);
}

#[test]
fn document_lists_all_thirteen_fields_per_table() {
    let rows = vec![row("public", "orders", 1)];
    let m = collect_table_stats(&rows).unwrap();
    let doc = table_stats_json(&m);
    let v: serde_json::Value = serde_json::from_str(&doc).unwrap();
    let t = v["public.orders"].as_object().unwrap();
    let fields = [
        "sequential_scans",
        "sequential_rows_read",
        "index_scans",
        "index_rows_fetched",
        "rows_inserted",
        "rows_updated",
        "rows_deleted",
        "live_rows",
        "dead_rows",
        "heap_blocks_read",
        "heap_blocks_hit",
        "index_blocks_read",
        "index_blocks_hit",
    ];
    assert_eq!(t.len(), fields.len());
    for f in fields {
        assert!(t.get(f).unwrap().is_i64(), "field {} must be numeric", f);
    }
    assert_eq!(t["sequential_scans"].as_i64(), Some(1));
    assert_eq!(t["index_blocks_hit"].as_i64(), Some(13));
}

#[test]
fn single_table_document_renders_exactly() {
    let mut r = row("app", "events", 0);
    r.seq_scan = Some(5);
    r.seq_tup_read = Some(-2);
    r.idx_scan = None;
    r.idx_tup_fetch = Some(0);
    r.n_tup_ins = Some(1);
    r.n_tup_upd = Some(2);
    r.n_tup_del = Some(3);
    r.n_live_tup = Some(1000);
    r.n_dead_tup = Some(50);
    r.heap_blks_read = Some(7);
    r.heap_blks_hit = None;
    r.idx_blks_read = Some(8);
    r.idx_blks_hit = Some(9);
    let rows = vec![r];
    let m = collect_table_stats(&rows).unwrap();
    let doc = table_stats_json(&m);
    let expected = "{\"app.events\":{\"sequential_scans\":5,\"sequential_rows_read\":-2,\"index_scans\":0,\"index_rows_fetched\":0,\"rows_inserted\":1,\"rows_updated\":2,\"rows_deleted\":3,\"live_rows\":1000,\"dead_rows\":50,\"heap_blocks_read\":7,\"heap_blocks_hit\":0,\"index_blocks_read\":8,\"index_blocks_hit\":9}}";
    assert_eq!(doc, expected);
}

#[test]
fn extreme_counter_values_round_trip() {
    let mut r = row("s", "t", 0);
    r.seq_scan = Some(i64::MIN);
    r.seq_tup_read = Some(i64::MAX);
    let rows = vec![r];
    let m = collect_table_stats(&rows).unwrap();
    let doc = table_stats_json(&m);
    let back = parse_table_stats(&doc).unwrap();
    let t = *back.get(&"s.t".to_string()).unwrap();
    assert_eq!(t.sequential_scans, i64::MIN);
    assert_eq!(t.sequential_rows_read, i64::MAX);
}

#[test]
fn keys_with_quotes_and_backslashes_are_escaped_and_recovered() {
    let rows = vec![row("we\"ird", "na\\me", 3)];
    let m = collect_table_stats(&rows).unwrap();
    let doc = table_stats_json(&m);
    let v: serde_json::Value = serde_json::from_str(&doc).unwrap();
    assert!(v.get("we\"ird.na\\me").is_some());
    let back = parse_table_stats(&doc).unwrap();
    assert_eq!(back.len(), 1);
    let t = *back.get(&"we\"ird.na\\me".to_string()).unwrap();
    assert_eq!(t.sequential_scans, 3);
}

#[test]
fn non_ascii_keys_round_trip() {
    let rows = vec![row("schéma", "tablæ", 11)];
    let m = collect_table_stats(&rows).unwrap();
    let doc = table_stats_json(&m);
    let back = parse_table_stats(&doc).unwrap();
    let t = *back.get(&"schéma.tablæ".to_string()).unwrap();
    assert_eq!(t.rows_inserted, 15);
}

#[test]
fn parser_rejects_malformed_documents() {
    assert!(parse_table_stats("").is_none());
    assert!(parse_table_stats("{").is_none());
    assert!(parse_table_stats("{}x").is_none());
    assert!(parse_table_stats("[]").is_none());
    assert!(parse_table_stats("{\"a.b\":{}}").is_none());
    let rows = vec![row("public", "orders", 5)];
    let m = collect_table_stats(&rows).unwrap();
    let doc = table_stats_json(&m);
    let mut truncated = doc.clone();
    truncated.pop();
    assert!(parse_table_stats(&truncated).is_none());
    let trailing = format!("{} ", doc);
    assert!(parse_table_stats(&trailing).is_none());
}

#[test]
fn parser_rejects_numbers_that_do_not_fit() {
    let doc = "{\"a.b\":{\"sequential_scans\":9223372036854775808,\"sequential_rows_read\":0,\"index_scans\":0,\"index_rows_fetched\":0,\"rows_inserted\":0,\"rows_updated\":0,\"rows_deleted\":0,\"live_rows\":0,\"dead_rows\":0,\"heap_blocks_read\":0,\"heap_blocks_hit\":0,\"index_blocks_read\":0,\"index_blocks_hit\":0}}";
    assert!(parse_table_stats(doc).is_none());
    let ok_doc = doc.replace("9223372036854775808", "9223372036854775807");
    let m = parse_table_stats(&ok_doc).unwrap();
    assert_eq!(m.get(&"a.b".to_string()).unwrap().sequential_scans, i64::MAX);
    let min_doc = doc.replace("9223372036854775808", "-9223372036854775808");
    let m2 = parse_table_stats(&min_doc).unwrap();
    assert_eq!(m2.get(&"a.b".to_string()).unwrap().sequential_scans, i64::MIN);
    let under_doc = doc.replace("9223372036854775808", "-9223372036854775809");
    assert!(parse_table_stats(under_doc.as_str()).is_none());
}

#[test]
fn snapshot_struct_matches_expected_values() {
    let rows = vec![row("public", "orders", 20)];
    let m = collect_table_stats(&rows).unwrap();
    let t = *m.get(&"public.orders".to_string()).unwrap();
    let expected = TableSnapshot {
        sequential_scans: 20,
        sequential_rows_read: 21,
        index_scans: 22,
        index_rows_fetched: 23,
        rows_inserted: 24,
        rows_updated: 25,
        rows_deleted: 26,
        live_rows: 27,
        dead_rows: 28,
        heap_blocks_read: 29,
        heap_blocks_hit: 30,
        index_blocks_read: 31,
        index_blocks_hit: 32,
    };
    assert_eq!(t, expected);
}
