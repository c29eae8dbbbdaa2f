//! The snapshot data model and the two builders.
//!
//! `DatabaseSnapshot` holds the database-wide counters of one instant,
//! `TableSnapshot` the access counters of one user table, and
//! `TableSnapshotMap` keys the latter by the `"schema.table"` composite name.
//! Both builders apply the same absence policy: a reading the source reported
//! as NULL (or not at all) becomes the numeric zero of its type.

use vstd::prelude::*;
use vstd::string::StringExecFns;

verus! {

/// A database-wide snapshot: the capture timestamp (epoch seconds) and the
/// cumulative counters of the engine's activity views.  Counters are signed
/// 64-bit integers, as the source reports them; the two I/O wait timings are
/// kept in whole microseconds (the source reports fractional milliseconds,
/// which the caller scales before handing them in, since this layer works on
/// integers only).
#[derive(Clone, Copy, Debug, PartialEq, Eq, Structural)]
pub struct DatabaseSnapshot {
    pub timestamp: u64,
    pub total_connections: i64,
    pub active_connections: i64,
    pub idle_connections: i64,
    pub total_transactions: i64,
    pub commits: i64,
    pub rollbacks: i64,
    pub blocks_read: i64,
    pub blocks_hit: i64,
    pub tuples_returned: i64,
    pub tuples_fetched: i64,
    pub tuples_inserted: i64,
    pub tuples_updated: i64,
    pub tuples_deleted: i64,
    pub temp_files: i64,
    pub temp_bytes: i64,
    pub deadlocks: i64,
    pub block_read_time_micros: u64,
    pub block_write_time_micros: u64,
}

/// One cumulative access-counter record for a single user table.
#[derive(Clone, Copy, Debug, PartialEq, Eq, Structural)]
pub struct TableSnapshot {
    pub sequential_scans: i64,
    pub sequential_rows_read: i64,
    pub index_scans: i64,
    pub index_rows_fetched: i64,
    pub rows_inserted: i64,
    pub rows_updated: i64,
    pub rows_deleted: i64,
    pub live_rows: i64,
    pub dead_rows: i64,
    pub heap_blocks_read: i64,
    pub heap_blocks_hit: i64,
    pub index_blocks_read: i64,
    pub index_blocks_hit: i64,
}

/// The raw database-wide readings, one per metric, exactly as the caller got
/// them from the instrumentation source: `None` stands for a NULL value or an
/// empty result set.
#[derive(Clone, Copy, Debug)]
pub struct RawDatabaseMetrics {
    pub total_connections: Option<i64>,
    pub active_connections: Option<i64>,
    pub idle_connections: Option<i64>,
    pub total_transactions: Option<i64>,
    pub commits: Option<i64>,
    pub rollbacks: Option<i64>,
    pub blocks_read: Option<i64>,
    pub blocks_hit: Option<i64>,
    pub tuples_returned: Option<i64>,
    pub tuples_fetched: Option<i64>,
    pub tuples_inserted: Option<i64>,
    pub tuples_updated: Option<i64>,
    pub tuples_deleted: Option<i64>,
    pub temp_files: Option<i64>,
    pub temp_bytes: Option<i64>,
    pub deadlocks: Option<i64>,
    pub block_read_time_micros: Option<u64>,
    pub block_write_time_micros: Option<u64>,
}

/// One row of the per-table activity view, as the caller read it: the two
/// identifying columns and the thirteen counters, all nullable at the source.
#[derive(Clone, Debug)]
pub struct TableRow {
    pub schema_name: Option<String>,
    pub table_name: Option<String>,
    pub seq_scan: Option<i64>,
    pub seq_tup_read: Option<i64>,
    pub idx_scan: Option<i64>,
    pub idx_tup_fetch: Option<i64>,
    pub n_tup_ins: Option<i64>,
    pub n_tup_upd: Option<i64>,
    pub n_tup_del: Option<i64>,
    pub n_live_tup: Option<i64>,
    pub n_dead_tup: Option<i64>,
    pub heap_blks_read: Option<i64>,
    pub heap_blks_hit: Option<i64>,
    pub idx_blks_read: Option<i64>,
    pub idx_blks_hit: Option<i64>,
}

/// Why a snapshot build failed.  A row of the per-table view that lacks one
/// of its identifying columns is fatal for the whole build: the source is
/// assumed self-consistent, so such a row is never skipped.
#[derive(Clone, Copy, Debug, PartialEq, Eq, Structural)]
pub enum SnapshotError {
    MalformedRow,
}

/// The absence policy on an integer reading.
pub open spec fn or_zero(v: Option<i64>) -> i64 {
    match v {
        Some(x) => x,
        None => 0,
    }
}

/// The absence policy on a microsecond reading.
pub open spec fn or_zero_u64(v: Option<u64>) -> u64 {
    match v {
        Some(x) => x,
        None => 0,
    }
}

/// Resolves a nullable integer reading: the value itself, or zero when the
/// source had no value.  A genuine zero reading and a missing one are
/// deliberately indistinguishable in the output.
pub fn extract_or_zero(v: Option<i64>) -> (r: i64)
    ensures
        r == or_zero(v),
{
    match v {
        Some(x) => x,
        None => 0,
    }
}

/// The absence policy on a microsecond timing reading.
pub fn extract_or_zero_u64(v: Option<u64>) -> (r: u64)
    ensures
        r == or_zero_u64(v),
{
    match v {
        Some(x) => x,
        None => 0,
    }
}

/// The snapshot that a given timestamp and set of raw readings determine:
/// every raw value passed through unchanged, with NULLs resolved to zero.
pub open spec fn database_snapshot_of(timestamp: u64, raw: RawDatabaseMetrics) -> DatabaseSnapshot {
    DatabaseSnapshot {
        timestamp,
        total_connections: or_zero(raw.total_connections),
        active_connections: or_zero(raw.active_connections),
        idle_connections: or_zero(raw.idle_connections),
        total_transactions: or_zero(raw.total_transactions),
        commits: or_zero(raw.commits),
        rollbacks: or_zero(raw.rollbacks),
        blocks_read: or_zero(raw.blocks_read),
        blocks_hit: or_zero(raw.blocks_hit),
        tuples_returned: or_zero(raw.tuples_returned),
        tuples_fetched: or_zero(raw.tuples_fetched),
        tuples_inserted: or_zero(raw.tuples_inserted),
        tuples_updated: or_zero(raw.tuples_updated),
        tuples_deleted: or_zero(raw.tuples_deleted),
        temp_files: or_zero(raw.temp_files),
        temp_bytes: or_zero(raw.temp_bytes),
        deadlocks: or_zero(raw.deadlocks),
        block_read_time_micros: or_zero_u64(raw.block_read_time_micros),
        block_write_time_micros: or_zero_u64(raw.block_write_time_micros),
    }
}

/// Assembles the database-wide snapshot from the raw readings the caller
/// collected, under the given capture timestamp.  Every field of the result
/// is populated: each metric carries the source's value verbatim, or zero
/// where the source had none.  Nothing is derived or cross-checked between
/// metrics.
pub fn collect_database_stats(timestamp: u64, raw: &RawDatabaseMetrics) -> (s: DatabaseSnapshot)
    ensures
        s == database_snapshot_of(timestamp, *raw),
{
    DatabaseSnapshot {
        timestamp,
        total_connections: extract_or_zero(raw.total_connections),
        active_connections: extract_or_zero(raw.active_connections),
        idle_connections: extract_or_zero(raw.idle_connections),
        total_transactions: extract_or_zero(raw.total_transactions),
        commits: extract_or_zero(raw.commits),
        rollbacks: extract_or_zero(raw.rollbacks),
        blocks_read: extract_or_zero(raw.blocks_read),
        blocks_hit: extract_or_zero(raw.blocks_hit),
        tuples_returned: extract_or_zero(raw.tuples_returned),
        tuples_fetched: extract_or_zero(raw.tuples_fetched),
        tuples_inserted: extract_or_zero(raw.tuples_inserted),
        tuples_updated: extract_or_zero(raw.tuples_updated),
        tuples_deleted: extract_or_zero(raw.tuples_deleted),
        temp_files: extract_or_zero(raw.temp_files),
        temp_bytes: extract_or_zero(raw.temp_bytes),
        deadlocks: extract_or_zero(raw.deadlocks),
        block_read_time_micros: extract_or_zero_u64(raw.block_read_time_micros),
        block_write_time_micros: extract_or_zero_u64(raw.block_write_time_micros),
    }
}

/// The snapshot timestamp is whatever the caller captured, unchanged: two
/// snapshots built from clock readings taken in increasing wall-clock order
/// therefore carry non-decreasing timestamps.  (That the clock readings
/// themselves do not decrease is the clock's own guarantee, outside this
/// layer.)
pub proof fn lemma_timestamp_monotone(
    t1: u64,
    raw1: RawDatabaseMetrics,
    t2: u64,
    raw2: RawDatabaseMetrics,
)
    requires
        t1 <= t2,
    ensures
        database_snapshot_of(t1, raw1).timestamp <= database_snapshot_of(t2, raw2).timestamp,
{
}

/// A metric the source reported as NULL (or not at all) surfaces as zero in
/// the snapshot, never as a distinct "unknown" marker.
pub proof fn lemma_absent_metric_is_zero(timestamp: u64, raw: RawDatabaseMetrics)
    ensures
        raw.total_connections is None ==> database_snapshot_of(
            timestamp,
            raw,
        ).total_connections == 0,
        raw.active_connections is None ==> database_snapshot_of(
            timestamp,
            raw,
        ).active_connections == 0,
        raw.idle_connections is None ==> database_snapshot_of(timestamp, raw).idle_connections
            == 0,
        raw.total_transactions is None ==> database_snapshot_of(
            timestamp,
            raw,
        ).total_transactions == 0,
        raw.commits is None ==> database_snapshot_of(timestamp, raw).commits == 0,
        raw.rollbacks is None ==> database_snapshot_of(timestamp, raw).rollbacks == 0,
        raw.blocks_read is None ==> database_snapshot_of(timestamp, raw).blocks_read == 0,
        raw.blocks_hit is None ==> database_snapshot_of(timestamp, raw).blocks_hit == 0,
        raw.tuples_returned is None ==> database_snapshot_of(timestamp, raw).tuples_returned == 0,
        raw.tuples_fetched is None ==> database_snapshot_of(timestamp, raw).tuples_fetched == 0,
        raw.tuples_inserted is None ==> database_snapshot_of(timestamp, raw).tuples_inserted == 0,
        raw.tuples_updated is None ==> database_snapshot_of(timestamp, raw).tuples_updated == 0,
        raw.tuples_deleted is None ==> database_snapshot_of(timestamp, raw).tuples_deleted == 0,
        raw.temp_files is None ==> database_snapshot_of(timestamp, raw).temp_files == 0,
        raw.temp_bytes is None ==> database_snapshot_of(timestamp, raw).temp_bytes == 0,
        raw.deadlocks is None ==> database_snapshot_of(timestamp, raw).deadlocks == 0,
        raw.block_read_time_micros is None ==> database_snapshot_of(
            timestamp,
            raw,
        ).block_read_time_micros == 0,
        raw.block_write_time_micros is None ==> database_snapshot_of(
            timestamp,
            raw,
        ).block_write_time_micros == 0,
{
}

/// A metric the source did report passes through verbatim: nothing is
/// derived, summed, or cross-checked between metrics.
pub proof fn lemma_metric_passed_through(timestamp: u64, raw: RawDatabaseMetrics, v: i64)
    ensures
        raw.total_connections == Some(v) ==> database_snapshot_of(
            timestamp,
            raw,
        ).total_connections == v,
        raw.active_connections == Some(v) ==> database_snapshot_of(
            timestamp,
            raw,
        ).active_connections == v,
        raw.idle_connections == Some(v) ==> database_snapshot_of(timestamp, raw).idle_connections
            == v,
        raw.total_transactions == Some(v) ==> database_snapshot_of(
            timestamp,
            raw,
        ).total_transactions == v,
        raw.commits == Some(v) ==> database_snapshot_of(timestamp, raw).commits == v,
        raw.rollbacks == Some(v) ==> database_snapshot_of(timestamp, raw).rollbacks == v,
        raw.blocks_read == Some(v) ==> database_snapshot_of(timestamp, raw).blocks_read == v,
        raw.blocks_hit == Some(v) ==> database_snapshot_of(timestamp, raw).blocks_hit == v,
        raw.tuples_returned == Some(v) ==> database_snapshot_of(timestamp, raw).tuples_returned
            == v,
        raw.tuples_fetched == Some(v) ==> database_snapshot_of(timestamp, raw).tuples_fetched == v,
        raw.tuples_inserted == Some(v) ==> database_snapshot_of(timestamp, raw).tuples_inserted
            == v,
        raw.tuples_updated == Some(v) ==> database_snapshot_of(timestamp, raw).tuples_updated == v,
        raw.tuples_deleted == Some(v) ==> database_snapshot_of(timestamp, raw).tuples_deleted == v,
        raw.temp_files == Some(v) ==> database_snapshot_of(timestamp, raw).temp_files == v,
        raw.temp_bytes == Some(v) ==> database_snapshot_of(timestamp, raw).temp_bytes == v,
        raw.deadlocks == Some(v) ==> database_snapshot_of(timestamp, raw).deadlocks == v,
{
}

/// Whether a per-table row carries both identifying columns.
pub open spec fn table_row_wf(r: TableRow) -> bool {
    &&& r.schema_name is Some
    &&& r.table_name is Some
}

/// The composite key of a well-formed row: `"<schema>.<table>"`.
pub open spec fn key_of(r: TableRow) -> Seq<char> {
    match (r.schema_name, r.table_name) {
        (Some(s), Some(t)) => s@ + "."@ + t@,
        _ => Seq::<char>::empty(),
    }
}

/// The per-table record that a row determines: its thirteen counters with
/// NULLs resolved to zero.
pub open spec fn table_snapshot_of(r: TableRow) -> TableSnapshot {
    TableSnapshot {
        sequential_scans: or_zero(r.seq_scan),
        sequential_rows_read: or_zero(r.seq_tup_read),
        index_scans: or_zero(r.idx_scan),
        index_rows_fetched: or_zero(r.idx_tup_fetch),
        rows_inserted: or_zero(r.n_tup_ins),
        rows_updated: or_zero(r.n_tup_upd),
        rows_deleted: or_zero(r.n_tup_del),
        live_rows: or_zero(r.n_live_tup),
        dead_rows: or_zero(r.n_dead_tup),
        heap_blocks_read: or_zero(r.heap_blks_read),
        heap_blocks_hit: or_zero(r.heap_blks_hit),
        index_blocks_read: or_zero(r.idx_blks_read),
        index_blocks_hit: or_zero(r.idx_blks_hit),
    }
}

/// A per-table counter the source reported as NULL surfaces as zero, like
/// every other absent reading.
pub proof fn lemma_absent_column_is_zero(r: TableRow)
    ensures
        r.seq_scan is None ==> table_snapshot_of(r).sequential_scans == 0,
        r.seq_tup_read is None ==> table_snapshot_of(r).sequential_rows_read == 0,
        r.idx_scan is None ==> table_snapshot_of(r).index_scans == 0,
        r.idx_tup_fetch is None ==> table_snapshot_of(r).index_rows_fetched == 0,
        r.n_tup_ins is None ==> table_snapshot_of(r).rows_inserted == 0,
        r.n_tup_upd is None ==> table_snapshot_of(r).rows_updated == 0,
        r.n_tup_del is None ==> table_snapshot_of(r).rows_deleted == 0,
        r.n_live_tup is None ==> table_snapshot_of(r).live_rows == 0,
        r.n_dead_tup is None ==> table_snapshot_of(r).dead_rows == 0,
        r.heap_blks_read is None ==> table_snapshot_of(r).heap_blocks_read == 0,
        r.heap_blks_hit is None ==> table_snapshot_of(r).heap_blocks_hit == 0,
        r.idx_blks_read is None ==> table_snapshot_of(r).index_blocks_read == 0,
        r.idx_blks_hit is None ==> table_snapshot_of(r).index_blocks_hit == 0,
{
}

/// Inserting under a key that is already present replaces that entry in
/// place; a new key is appended.
pub open spec fn upsert(
    es: Seq<(Seq<char>, TableSnapshot)>,
    k: Seq<char>,
    t: TableSnapshot,
) -> Seq<(Seq<char>, TableSnapshot)>
    decreases es.len(),
{
    if es.len() == 0 {
        seq![(k, t)]
    } else if es[0].0 == k {
        seq![(k, t)] + es.drop_first()
    } else {
        seq![es[0]] + upsert(es.drop_first(), k, t)
    }
}

/// The entry sequence that a sequence of rows determines, each row upserted
/// in order under its composite key.
pub open spec fn table_entries_of(rows: Seq<TableRow>) -> Seq<(Seq<char>, TableSnapshot)>
    decreases rows.len(),
{
    if rows.len() == 0 {
        Seq::<(Seq<char>, TableSnapshot)>::empty()
    } else {
        upsert(
            table_entries_of(rows.drop_last()),
            key_of(rows.last()),
            table_snapshot_of(rows.last()),
        )
    }
}

/// The per-table snapshots of one collection pass, keyed by the composite
/// `"schema.table"` name.  Lookup is by exact key match only; iteration
/// order is the source's row order and carries no meaning.
#[derive(Clone, Debug)]
pub struct TableSnapshotMap {
    entries: Vec<(String, TableSnapshot)>,
}

impl View for TableSnapshotMap {
    type V = Seq<(Seq<char>, TableSnapshot)>;

    closed spec fn view(&self) -> Seq<(Seq<char>, TableSnapshot)> {
        Seq::new(self.entries@.len(), |i: int| (self.entries@[i].0@, self.entries@[i].1))
    }
}

impl TableSnapshotMap {
    /// No two entries share a key: each key maps to exactly one snapshot.
    pub open spec fn wf(&self) -> bool {
        forall|i: int, j: int|
            0 <= i < j < self@.len() ==> self@[i].0 != self@[j].0
    }

    /// The empty map.
    pub fn new() -> (m: TableSnapshotMap)
        ensures
            m@ =~= Seq::<(Seq<char>, TableSnapshot)>::empty(),
            m.wf(),
    {
        TableSnapshotMap { entries: Vec::new() }
    }

    /// How many tables the map covers.
    pub fn len(&self) -> (n: usize)
        ensures
            n == self@.len(),
    {
        self.entries.len()
    }

    /// The key of the entry at a position (row order of the source).
    pub fn key_at(&self, i: usize) -> (k: &String)
        requires
            i < self@.len(),
        ensures
            k@ == self@[i as int].0,
    {
        &self.entries[i].0
    }

    /// The snapshot of the entry at a position.
    pub fn snapshot_at(&self, i: usize) -> (t: &TableSnapshot)
        requires
            i < self@.len(),
        ensures
            *t == self@[i as int].1,
    {
        &self.entries[i].1
    }

    /// Exact-match lookup: the snapshot stored under the key, if any.
    #[verifier::loop_isolation(false)]
    pub fn get(&self, key: &String) -> (r: Option<&TableSnapshot>)
        requires
            self.wf(),
        ensures
            match r {
                Some(t) => exists|i: int|
                    0 <= i < self@.len() && self@[i].0 == key@ && self@[i].1 == *t,
                None => forall|i: int| 0 <= i < self@.len() ==> self@[i].0 != key@,
            },
    {
        let n = self.entries.len();
        for i in 0..n
            invariant
                forall|j: int| 0 <= j < i ==> self@[j].0 != key@,
        {
            if self.entries[i].0 == *key {
                proof {
                    assert(self@[i as int].0 == key@ && self@[i as int].1
                        == self.entries@[i as int].1);
                }
                return Some(&self.entries[i].1);
            }
            proof {
                assert(self@[i as int].0 == self.entries@[i as int].0@);
            }
        }
        None
    }

    /// Puts an entry at the front, keeping whatever follows.  This is the
    /// parser's builder: it reproduces a document's entries exactly as they
    /// stand, so it must not deduplicate keys.
    pub(crate) fn prepend_entry(&mut self, key: String, t: TableSnapshot)
        ensures
            final(self)@ == seq![(key@, t)] + old(self)@,
    {
        let ghost kv = key@;
        self.entries.insert(0, (key, t));
        proof {
            assert(self@ =~= seq![(kv, t)] + old(self)@);
        }
    }

    /// Stores a snapshot under a key: replaces the entry already under that
    /// key, or appends one.
    #[verifier::loop_isolation(false)]
    pub fn insert(&mut self, key: String, t: TableSnapshot)
        requires
            old(self).wf(),
        ensures
            final(self)@ == upsert(old(self)@, key@, t),
            final(self).wf(),
    {
        let ghost kv = key@;
        let mut found: Option<usize> = None;
        let n = self.entries.len();
        for i in 0..n
            invariant
                match found {
                    None => forall|j: int| 0 <= j < i ==> self@[j].0 != kv,
                    Some(f) => 0 <= f < i && self@[f as int].0 == kv,
                },
        {
            proof {
                assert(self@[i as int].0 == self.entries@[i as int].0@);
            }
            if found.is_none() && self.entries[i].0 == key {
                found = Some(i);
            }
        }
        match found {
            Some(f) => {
                self.entries[f] = (key, t);
                proof {
                    assert(self@ =~= old(self)@.update(f as int, (kv, t)));
                    assert(forall|j: int|
                        0 <= j < f ==> old(self)@[j].0 != kv) by {
                        assert forall|j: int| 0 <= j < f implies old(self)@[j].0 != kv by {
                            assert(old(self)@[j].0 != old(self)@[f as int].0);
                        }
                    }
                    lemma_upsert_found(old(self)@, kv, t, f as int);
                }
            },
            None => {
                self.entries.push((key, t));
                proof {
                    assert(self@ =~= old(self)@.push((kv, t)));
                    lemma_upsert_fresh(old(self)@, kv, t);
                }
            },
        }
    }
}

/// In a well-formed map the key set has no duplicates: any two positions
/// holding the same key are the same position, so each key maps to exactly
/// one snapshot.
pub proof fn lemma_each_key_maps_to_one_snapshot(m: &TableSnapshotMap, i: int, j: int)
    requires
        m.wf(),
        0 <= i < m@.len(),
        0 <= j < m@.len(),
        m@[i].0 == m@[j].0,
    ensures
        i == j,
        m@[i].1 == m@[j].1,
{
}

/// When the key is already present at position `i` (and nowhere earlier),
/// upserting replaces exactly that entry.
proof fn lemma_upsert_found(
    es: Seq<(Seq<char>, TableSnapshot)>,
    k: Seq<char>,
    t: TableSnapshot,
    i: int,
)
    requires
        0 <= i < es.len(),
        es[i].0 == k,
        forall|j: int| 0 <= j < i ==> es[j].0 != k,
    ensures
        upsert(es, k, t) =~= es.update(i, (k, t)),
    decreases i,
{
    if i == 0 {
        assert(upsert(es, k, t) =~= es.update(0, (k, t)));
    } else {
        lemma_upsert_found(es.drop_first(), k, t, i - 1);
        assert(upsert(es, k, t) =~= es.update(i, (k, t)));
    }
}

/// When the key is absent, upserting appends.
proof fn lemma_upsert_fresh(es: Seq<(Seq<char>, TableSnapshot)>, k: Seq<char>, t: TableSnapshot)
    requires
        forall|j: int| 0 <= j < es.len() ==> es[j].0 != k,
    ensures
        upsert(es, k, t) =~= es.push((k, t)),
    decreases es.len(),
{
    if es.len() > 0 {
        lemma_upsert_fresh(es.drop_first(), k, t);
        assert(upsert(es, k, t) =~= es.push((k, t)));
    }
}

/// Forms the composite key `"<schema>.<table>"`.
pub fn composite_key(schema: &String, table: &String) -> (k: String)
    ensures
        k@ == schema@ + "."@ + table@,
{
    let mut k = schema.clone();
    k.append(".");
    k.append(table.as_str());
    k
}

/// Builds the per-table snapshot map from the rows the caller read off the
/// source's table-activity view, one entry per row under the composite
/// `"schema.table"` key.  Zero rows yield the empty map, not a failure.  A
/// row without its schema or table name is fatal for the whole call: the
/// result is an error and no partial map.
pub fn collect_table_stats(rows: &Vec<TableRow>) -> (r: Result<TableSnapshotMap, SnapshotError>)
    ensures
        r is Ok <==> (forall|i: int| 0 <= i < rows@.len() ==> table_row_wf(rows@[i])),
        r matches Ok(m) ==> m@ == table_entries_of(rows@) && m.wf(),
        rows@.len() == 0 ==> r is Ok,
{
    let mut map = TableSnapshotMap::new();
    let n = rows.len();
    for idx in 0..n
        invariant
            n == rows@.len(),
            forall|j: int| 0 <= j < idx ==> table_row_wf(rows@[j]),
            map@ == table_entries_of(rows@.take(idx as int)),
            map.wf(),
    {
        let row = &rows[idx];
        let key = match (&row.schema_name, &row.table_name) {
            (Some(s), Some(t)) => composite_key(s, t),
            _ => {
                return Err(SnapshotError::MalformedRow);
            },
        };
        let snap = TableSnapshot {
            sequential_scans: extract_or_zero(row.seq_scan),
            sequential_rows_read: extract_or_zero(row.seq_tup_read),
            index_scans: extract_or_zero(row.idx_scan),
            index_rows_fetched: extract_or_zero(row.idx_tup_fetch),
            rows_inserted: extract_or_zero(row.n_tup_ins),
            rows_updated: extract_or_zero(row.n_tup_upd),
            rows_deleted: extract_or_zero(row.n_tup_del),
            live_rows: extract_or_zero(row.n_live_tup),
            dead_rows: extract_or_zero(row.n_dead_tup),
            heap_blocks_read: extract_or_zero(row.heap_blks_read),
            heap_blocks_hit: extract_or_zero(row.heap_blks_hit),
            index_blocks_read: extract_or_zero(row.idx_blks_read),
            index_blocks_hit: extract_or_zero(row.idx_blks_hit),
        };
        proof {
            assert(key@ == key_of(rows@[idx as int]));
            assert(snap == table_snapshot_of(rows@[idx as int]));
        }
        map.insert(key, snap);
        proof {
            assert(rows@.take(idx + 1).drop_last() =~= rows@.take(idx as int));
            assert(rows@.take(idx + 1).last() == rows@[idx as int]);
        }
    }
    proof {
        assert(rows@.take(n as int) =~= rows@);
    }
    Ok(map)
}

} // verus!
