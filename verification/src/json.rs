//! The snapshot serializer.
//!
//! Each snapshot renders as one JSON document with a fixed, stable field
//! order; no field is ever omitted, so the absence-to-zero policy survives
//! end to end.  The table map renders as an object keyed by the composite
//! `"schema.table"` strings, with quotes and backslashes in keys escaped.
//! The spec functions here define the documents character by character, and
//! each writer is proved to produce exactly that text, so serialization is
//! pure, deterministic, and total for every value of the snapshot types.

use crate::numeric::{dec_digits, dec_int, dec_millis, write_i64, write_millis, write_u64};
use crate::snapshot::{DatabaseSnapshot, TableSnapshot, TableSnapshotMap};
use vstd::prelude::*;
use vstd::string::StringExecFns;

verus! {

/// Relies on std's `String::push`: appends exactly the given character.
pub assume_specification[ String::push ](s: &mut String, c: char)
    ensures
        final(s)@ == old(s)@.push(c),
;

/// The document text of a database-wide snapshot.
#[verifier::opaque]
pub open spec fn database_json(s: DatabaseSnapshot) -> Seq<char> {
    "{\"timestamp\":"@ + dec_digits(s.timestamp as nat) + ",\"total_connections\":"@ + dec_int(
        s.total_connections as int,
    ) + ",\"active_connections\":"@ + dec_int(s.active_connections as int)
        + ",\"idle_connections\":"@ + dec_int(s.idle_connections as int)
        + ",\"total_transactions\":"@ + dec_int(s.total_transactions as int) + ",\"commits\":"@
        + dec_int(s.commits as int) + ",\"rollbacks\":"@ + dec_int(s.rollbacks as int)
        + ",\"blocks_read\":"@ + dec_int(s.blocks_read as int) + ",\"blocks_hit\":"@ + dec_int(
        s.blocks_hit as int,
    ) + ",\"tuples_returned\":"@ + dec_int(s.tuples_returned as int) + ",\"tuples_fetched\":"@
        + dec_int(s.tuples_fetched as int) + ",\"tuples_inserted\":"@ + dec_int(
        s.tuples_inserted as int,
    ) + ",\"tuples_updated\":"@ + dec_int(s.tuples_updated as int) + ",\"tuples_deleted\":"@
        + dec_int(s.tuples_deleted as int) + ",\"temp_files\":"@ + dec_int(s.temp_files as int)
        + ",\"temp_bytes\":"@ + dec_int(s.temp_bytes as int) + ",\"deadlocks\":"@ + dec_int(
        s.deadlocks as int,
    ) + ",\"block_read_time\":"@ + dec_millis(s.block_read_time_micros as nat)
        + ",\"block_write_time\":"@ + dec_millis(s.block_write_time_micros as nat) + "}"@
}

/// Renders the database-wide snapshot as its JSON document.
pub fn database_stats_json(s: &DatabaseSnapshot) -> (r: String)
    ensures
        r@ == database_json(*s),
{
    let mut out = String::new();
    out.append("{\"timestamp\":");
    write_u64(&mut out, s.timestamp);
    out.append(",\"total_connections\":");
    write_i64(&mut out, s.total_connections);
    out.append(",\"active_connections\":");
    write_i64(&mut out, s.active_connections);
    out.append(",\"idle_connections\":");
    write_i64(&mut out, s.idle_connections);
    out.append(",\"total_transactions\":");
    write_i64(&mut out, s.total_transactions);
    out.append(",\"commits\":");
    write_i64(&mut out, s.commits);
    out.append(",\"rollbacks\":");
    write_i64(&mut out, s.rollbacks);
    out.append(",\"blocks_read\":");
    write_i64(&mut out, s.blocks_read);
    out.append(",\"blocks_hit\":");
    write_i64(&mut out, s.blocks_hit);
    out.append(",\"tuples_returned\":");
    write_i64(&mut out, s.tuples_returned);
    out.append(",\"tuples_fetched\":");
    write_i64(&mut out, s.tuples_fetched);
    out.append(",\"tuples_inserted\":");
    write_i64(&mut out, s.tuples_inserted);
    out.append(",\"tuples_updated\":");
    write_i64(&mut out, s.tuples_updated);
    out.append(",\"tuples_deleted\":");
    write_i64(&mut out, s.tuples_deleted);
    out.append(",\"temp_files\":");
    write_i64(&mut out, s.temp_files);
    out.append(",\"temp_bytes\":");
    write_i64(&mut out, s.temp_bytes);
    out.append(",\"deadlocks\":");
    write_i64(&mut out, s.deadlocks);
    out.append(",\"block_read_time\":");
    write_millis(&mut out, s.block_read_time_micros);
    out.append(",\"block_write_time\":");
    write_millis(&mut out, s.block_write_time_micros);
    out.append("}");
    proof {
        reveal(database_json);
        assert(out@ =~= database_json(*s));
    }
    out
}

/// Concatenation of texts is associative.
pub proof fn lemma_concat_assoc(a: Seq<char>, b: Seq<char>, c: Seq<char>)
    ensures
        (a + b) + c == a + (b + c),
{
    assert((a + b) + c =~= a + (b + c));
}

/// Whether a text occurs anywhere in a document.
pub open spec fn contains_text(doc: Seq<char>, lab: Seq<char>) -> bool {
    exists|i: int|
        0 <= i && i + lab.len() <= doc.len() && #[trigger] doc.subrange(i, i + lab.len()) == lab
}

/// A text occurs in a document that is written around it.
pub proof fn lemma_contains_here(pre: Seq<char>, lab: Seq<char>, post: Seq<char>, doc: Seq<char>)
    requires
        doc == (pre + lab) + post,
    ensures
        contains_text(doc, lab),
{
    let i = pre.len() as int;
    assert(doc.subrange(i, i + lab.len()) =~= lab);
}

/// Every declared field of the database-wide document is present: the
/// document spells each field's label (with its separator and colon), and
/// after it a numeric text, never an omitted or null member.
#[verifier::rlimit(100)]
#[verifier::spinoff_prover]
pub proof fn lemma_database_fields_present(s: DatabaseSnapshot)
    ensures
        contains_text(database_json(s), ("{\"timestamp\":")@),
        contains_text(database_json(s), (",\"total_connections\":")@),
        contains_text(database_json(s), (",\"active_connections\":")@),
        contains_text(database_json(s), (",\"idle_connections\":")@),
        contains_text(database_json(s), (",\"total_transactions\":")@),
        contains_text(database_json(s), (",\"commits\":")@),
        contains_text(database_json(s), (",\"rollbacks\":")@),
        contains_text(database_json(s), (",\"blocks_read\":")@),
        contains_text(database_json(s), (",\"blocks_hit\":")@),
        contains_text(database_json(s), (",\"tuples_returned\":")@),
        contains_text(database_json(s), (",\"tuples_fetched\":")@),
        contains_text(database_json(s), (",\"tuples_inserted\":")@),
        contains_text(database_json(s), (",\"tuples_updated\":")@),
        contains_text(database_json(s), (",\"tuples_deleted\":")@),
        contains_text(database_json(s), (",\"temp_files\":")@),
        contains_text(database_json(s), (",\"temp_bytes\":")@),
        contains_text(database_json(s), (",\"deadlocks\":")@),
        contains_text(database_json(s), (",\"block_read_time\":")@),
        contains_text(database_json(s), (",\"block_write_time\":")@),
{
    reveal(database_json);
    let doc = database_json(s);
    let l1 = ("{\"timestamp\":")@;
    let l2 = (",\"total_connections\":")@;
    let l3 = (",\"active_connections\":")@;
    let l4 = (",\"idle_connections\":")@;
    let l5 = (",\"total_transactions\":")@;
    let l6 = (",\"commits\":")@;
    let l7 = (",\"rollbacks\":")@;
    let l8 = (",\"blocks_read\":")@;
    let l9 = (",\"blocks_hit\":")@;
    let l10 = (",\"tuples_returned\":")@;
    let l11 = (",\"tuples_fetched\":")@;
    let l12 = (",\"tuples_inserted\":")@;
    let l13 = (",\"tuples_updated\":")@;
    let l14 = (",\"tuples_deleted\":")@;
    let l15 = (",\"temp_files\":")@;
    let l16 = (",\"temp_bytes\":")@;
    let l17 = (",\"deadlocks\":")@;
    let l18 = (",\"block_read_time\":")@;
    let l19 = (",\"block_write_time\":")@;
    let l20 = ("}")@;
    let d1 = dec_digits(s.timestamp as nat);
    let d2 = dec_int(s.total_connections as int);
    let d3 = dec_int(s.active_connections as int);
    let d4 = dec_int(s.idle_connections as int);
    let d5 = dec_int(s.total_transactions as int);
    let d6 = dec_int(s.commits as int);
    let d7 = dec_int(s.rollbacks as int);
    let d8 = dec_int(s.blocks_read as int);
    let d9 = dec_int(s.blocks_hit as int);
    let d10 = dec_int(s.tuples_returned as int);
    let d11 = dec_int(s.tuples_fetched as int);
    let d12 = dec_int(s.tuples_inserted as int);
    let d13 = dec_int(s.tuples_updated as int);
    let d14 = dec_int(s.tuples_deleted as int);
    let d15 = dec_int(s.temp_files as int);
    let d16 = dec_int(s.temp_bytes as int);
    let d17 = dec_int(s.deadlocks as int);
    let d18 = dec_millis(s.block_read_time_micros as nat);
    let d19 = dec_millis(s.block_write_time_micros as nat);
    let b0 = Seq::<char>::empty();
    let a1 = l1;
    let b1 = a1 + d1;
    let a2 = b1 + l2;
    let b2 = a2 + d2;
    let a3 = b2 + l3;
    let b3 = a3 + d3;
    let a4 = b3 + l4;
    let b4 = a4 + d4;
    let a5 = b4 + l5;
    let b5 = a5 + d5;
    let a6 = b5 + l6;
    let b6 = a6 + d6;
    let a7 = b6 + l7;
    let b7 = a7 + d7;
    let a8 = b7 + l8;
    let b8 = a8 + d8;
    let a9 = b8 + l9;
    let b9 = a9 + d9;
    let a10 = b9 + l10;
    let b10 = a10 + d10;
    let a11 = b10 + l11;
    let b11 = a11 + d11;
    let a12 = b11 + l12;
    let b12 = a12 + d12;
    let a13 = b12 + l13;
    let b13 = a13 + d13;
    let a14 = b13 + l14;
    let b14 = a14 + d14;
    let a15 = b14 + l15;
    let b15 = a15 + d15;
    let a16 = b15 + l16;
    let b16 = a16 + d16;
    let a17 = b16 + l17;
    let b17 = a17 + d17;
    let a18 = b17 + l18;
    let b18 = a18 + d18;
    let a19 = b18 + l19;
    let b19 = a19 + d19;
    assert(doc == b19 + l20);
    let p20 = l20;
    lemma_concat_assoc(a19, d19, p20);
    let q19 = d19 + p20;
    lemma_contains_here(b18, l19, q19, doc);
    lemma_concat_assoc(b18, l19, q19);
    let p19 = l19 + q19;
    assert(doc == b18 + p19);
    lemma_concat_assoc(a18, d18, p19);
    let q18 = d18 + p19;
    lemma_contains_here(b17, l18, q18, doc);
    lemma_concat_assoc(b17, l18, q18);
    let p18 = l18 + q18;
    assert(doc == b17 + p18);
    lemma_concat_assoc(a17, d17, p18);
    let q17 = d17 + p18;
    lemma_contains_here(b16, l17, q17, doc);
    lemma_concat_assoc(b16, l17, q17);
    let p17 = l17 + q17;
    assert(doc == b16 + p17);
    lemma_concat_assoc(a16, d16, p17);
    let q16 = d16 + p17;
    lemma_contains_here(b15, l16, q16, doc);
    lemma_concat_assoc(b15, l16, q16);
    let p16 = l16 + q16;
    assert(doc == b15 + p16);
    lemma_concat_assoc(a15, d15, p16);
    let q15 = d15 + p16;
    lemma_contains_here(b14, l15, q15, doc);
    lemma_concat_assoc(b14, l15, q15);
    let p15 = l15 + q15;
    assert(doc == b14 + p15);
    lemma_concat_assoc(a14, d14, p15);
    let q14 = d14 + p15;
    lemma_contains_here(b13, l14, q14, doc);
    lemma_concat_assoc(b13, l14, q14);
    let p14 = l14 + q14;
    assert(doc == b13 + p14);
    lemma_concat_assoc(a13, d13, p14);
    let q13 = d13 + p14;
    lemma_contains_here(b12, l13, q13, doc);
    lemma_concat_assoc(b12, l13, q13);
    let p13 = l13 + q13;
    assert(doc == b12 + p13);
    lemma_concat_assoc(a12, d12, p13);
    let q12 = d12 + p13;
    lemma_contains_here(b11, l12, q12, doc);
    lemma_concat_assoc(b11, l12, q12);
    let p12 = l12 + q12;
    assert(doc == b11 + p12);
    lemma_concat_assoc(a11, d11, p12);
    let q11 = d11 + p12;
    lemma_contains_here(b10, l11, q11, doc);
    lemma_concat_assoc(b10, l11, q11);
    let p11 = l11 + q11;
    assert(doc == b10 + p11);
    lemma_concat_assoc(a10, d10, p11);
    let q10 = d10 + p11;
    lemma_contains_here(b9, l10, q10, doc);
    lemma_concat_assoc(b9, l10, q10);
    let p10 = l10 + q10;
    assert(doc == b9 + p10);
    lemma_concat_assoc(a9, d9, p10);
    let q9 = d9 + p10;
    lemma_contains_here(b8, l9, q9, doc);
    lemma_concat_assoc(b8, l9, q9);
    let p9 = l9 + q9;
    assert(doc == b8 + p9);
    lemma_concat_assoc(a8, d8, p9);
    let q8 = d8 + p9;
    lemma_contains_here(b7, l8, q8, doc);
    lemma_concat_assoc(b7, l8, q8);
    let p8 = l8 + q8;
    assert(doc == b7 + p8);
    lemma_concat_assoc(a7, d7, p8);
    let q7 = d7 + p8;
    lemma_contains_here(b6, l7, q7, doc);
    lemma_concat_assoc(b6, l7, q7);
    let p7 = l7 + q7;
    assert(doc == b6 + p7);
    lemma_concat_assoc(a6, d6, p7);
    let q6 = d6 + p7;
    lemma_contains_here(b5, l6, q6, doc);
    lemma_concat_assoc(b5, l6, q6);
    let p6 = l6 + q6;
    assert(doc == b5 + p6);
    lemma_concat_assoc(a5, d5, p6);
    let q5 = d5 + p6;
    lemma_contains_here(b4, l5, q5, doc);
    lemma_concat_assoc(b4, l5, q5);
    let p5 = l5 + q5;
    assert(doc == b4 + p5);
    lemma_concat_assoc(a4, d4, p5);
    let q4 = d4 + p5;
    lemma_contains_here(b3, l4, q4, doc);
    lemma_concat_assoc(b3, l4, q4);
    let p4 = l4 + q4;
    assert(doc == b3 + p4);
    lemma_concat_assoc(a3, d3, p4);
    let q3 = d3 + p4;
    lemma_contains_here(b2, l3, q3, doc);
    lemma_concat_assoc(b2, l3, q3);
    let p3 = l3 + q3;
    assert(doc == b2 + p3);
    lemma_concat_assoc(a2, d2, p3);
    let q2 = d2 + p3;
    lemma_contains_here(b1, l2, q2, doc);
    lemma_concat_assoc(b1, l2, q2);
    let p2 = l2 + q2;
    assert(doc == b1 + p2);
    lemma_concat_assoc(a1, d1, p2);
    let q1 = d1 + p2;
    assert(b0 + l1 =~= l1);
    assert(doc == (b0 + l1) + q1);
    lemma_contains_here(b0, l1, q1, doc);
}

/// A key character as it stands in the document: quotes and backslashes get
/// a backslash in front, everything else passes through.
pub open spec fn esc_char(c: char) -> Seq<char> {
    if c == '"' || c == '\\' {
        seq!['\\', c]
    } else {
        seq![c]
    }
}

/// A key as it stands in the document.
pub open spec fn escape(k: Seq<char>) -> Seq<char>
    decreases k.len(),
{
    if k.len() == 0 {
        Seq::<char>::empty()
    } else {
        esc_char(k[0]) + escape(k.drop_first())
    }
}

/// Escaping one more character extends the escaped text at its end.
pub proof fn lemma_escape_snoc(k: Seq<char>, c: char)
    ensures
        escape(k.push(c)) == escape(k) + esc_char(c),
    decreases k.len(),
{
    if k.len() == 0 {
        assert(k.push(c) =~= seq![c]);
        assert(k.push(c)[0] == c);
        assert(k.push(c).drop_first() =~= Seq::<char>::empty());
        assert(escape(Seq::<char>::empty()) == Seq::<char>::empty());
        assert(escape(k.push(c)) == esc_char(c) + escape(k.push(c).drop_first()));
        assert(escape(k.push(c)) =~= escape(k) + esc_char(c));
    } else {
        lemma_escape_snoc(k.drop_first(), c);
        assert(k.push(c)[0] == k[0]);
        assert(k.push(c).drop_first() =~= k.drop_first().push(c));
        assert(escape(k.push(c)) =~= escape(k) + esc_char(c));
    }
}

/// Appends a key with its quotes and backslashes escaped.
#[verifier::loop_isolation(false)]
pub fn write_escaped(out: &mut String, s: &str)
    ensures
        final(out)@ == old(out)@ + escape(s@),
{
    let n = s.unicode_len();
    proof {
        reveal_strlit("\\");
        assert(("\\")@ =~= seq!['\\']);
        assert(s@.take(0) =~= Seq::<char>::empty());
        assert(out@ =~= old(out)@ + escape(s@.take(0)));
    }
    for i in 0..n
        invariant
            n == s@.len(),
            out@ == old(out)@ + escape(s@.take(i as int)),
    {
        let c = s.get_char(i);
        if c == '"' || c == '\\' {
            out.append("\\");
        }
        out.push(c);
        proof {
            lemma_escape_snoc(s@.take(i as int), c);
            assert(s@.take(i + 1) =~= s@.take(i as int).push(c));
            assert(out@ =~= old(out)@ + escape(s@.take(i + 1)));
        }
    }
    proof {
        assert(s@.take(n as int) =~= s@);
    }
}

/// The document text of one per-table record.
#[verifier::opaque]
pub open spec fn table_json(t: TableSnapshot) -> Seq<char> {
    "{\"sequential_scans\":"@ + dec_int(t.sequential_scans as int)
        + ",\"sequential_rows_read\":"@ + dec_int(t.sequential_rows_read as int)
        + ",\"index_scans\":"@ + dec_int(t.index_scans as int) + ",\"index_rows_fetched\":"@
        + dec_int(t.index_rows_fetched as int) + ",\"rows_inserted\":"@ + dec_int(
        t.rows_inserted as int,
    ) + ",\"rows_updated\":"@ + dec_int(t.rows_updated as int) + ",\"rows_deleted\":"@ + dec_int(
        t.rows_deleted as int,
    ) + ",\"live_rows\":"@ + dec_int(t.live_rows as int) + ",\"dead_rows\":"@ + dec_int(
        t.dead_rows as int,
    ) + ",\"heap_blocks_read\":"@ + dec_int(t.heap_blocks_read as int) + ",\"heap_blocks_hit\":"@
        + dec_int(t.heap_blocks_hit as int) + ",\"index_blocks_read\":"@ + dec_int(
        t.index_blocks_read as int,
    ) + ",\"index_blocks_hit\":"@ + dec_int(t.index_blocks_hit as int) + "}"@
}

/// The document text of one map entry: the escaped key and its record.
pub open spec fn entry_json(k: Seq<char>, t: TableSnapshot) -> Seq<char> {
    "\""@ + escape(k) + "\":"@ + table_json(t)
}

/// The document text of the entry list, comma-separated.
pub open spec fn entries_json(es: Seq<(Seq<char>, TableSnapshot)>) -> Seq<char>
    decreases es.len(),
{
    if es.len() == 0 {
        Seq::<char>::empty()
    } else if es.len() == 1 {
        entry_json(es[0].0, es[0].1)
    } else {
        entry_json(es[0].0, es[0].1) + ","@ + entries_json(es.drop_first())
    }
}

/// The document text of a whole table snapshot map.
pub open spec fn table_map_json(es: Seq<(Seq<char>, TableSnapshot)>) -> Seq<char> {
    "{"@ + entries_json(es) + "}"@
}

/// One more entry extends the list text at its end, with a comma when the
/// list was not empty.
pub proof fn lemma_entries_json_snoc(es: Seq<(Seq<char>, TableSnapshot)>, e: (Seq<char>, TableSnapshot))
    ensures
        entries_json(es.push(e)) == if es.len() == 0 {
            entry_json(e.0, e.1)
        } else {
            entries_json(es) + ","@ + entry_json(e.0, e.1)
        },
    decreases es.len(),
{
    if es.len() == 0 {
        assert(es.push(e)[0] == e);
    } else {
        lemma_entries_json_snoc(es.drop_first(), e);
        assert(es.push(e).drop_first() =~= es.drop_first().push(e));
        assert(es.push(e)[0] == es[0]);
        let a = entry_json(es[0].0, es[0].1);
        let b = entries_json(es.drop_first());
        let c = entry_json(e.0, e.1);
        if es.len() == 1 {
            assert(entries_json(es.push(e)) == a + ","@ + c);
            assert(entries_json(es) == a);
        } else {
            assert(entries_json(es.push(e)) == a + ","@ + (b + ","@ + c));
            assert(a + ","@ + (b + ","@ + c) =~= (a + ","@ + b) + ","@ + c);
            assert(entries_json(es) == a + ","@ + b);
        }
    }
}

/// Appends one per-table record.
#[verifier::rlimit(50)]
pub fn write_table_json(out: &mut String, t: &TableSnapshot)
    ensures
        final(out)@ == old(out)@ + table_json(*t),
{
    out.append("{\"sequential_scans\":");
    write_i64(out, t.sequential_scans);
    out.append(",\"sequential_rows_read\":");
    write_i64(out, t.sequential_rows_read);
    out.append(",\"index_scans\":");
    write_i64(out, t.index_scans);
    out.append(",\"index_rows_fetched\":");
    write_i64(out, t.index_rows_fetched);
    out.append(",\"rows_inserted\":");
    write_i64(out, t.rows_inserted);
    out.append(",\"rows_updated\":");
    write_i64(out, t.rows_updated);
    out.append(",\"rows_deleted\":");
    write_i64(out, t.rows_deleted);
    out.append(",\"live_rows\":");
    write_i64(out, t.live_rows);
    out.append(",\"dead_rows\":");
    write_i64(out, t.dead_rows);
    out.append(",\"heap_blocks_read\":");
    write_i64(out, t.heap_blocks_read);
    out.append(",\"heap_blocks_hit\":");
    write_i64(out, t.heap_blocks_hit);
    out.append(",\"index_blocks_read\":");
    write_i64(out, t.index_blocks_read);
    out.append(",\"index_blocks_hit\":");
    write_i64(out, t.index_blocks_hit);
    out.append("}");
    proof {
        reveal(table_json);
        assert(final(out)@ =~= old(out)@ + table_json(*t));
    }
}

/// Appends one map entry.
pub fn write_entry_json(out: &mut String, k: &String, t: &TableSnapshot)
    ensures
        final(out)@ == old(out)@ + entry_json(k@, *t),
{
    out.append("\"");
    write_escaped(out, k.as_str());
    out.append("\":");
    write_table_json(out, t);
    proof {
        assert(final(out)@ =~= old(out)@ + entry_json(k@, *t));
    }
}

/// Renders the table snapshot map as its JSON document: an object with one
/// member per entry, in entry order.
#[verifier::loop_isolation(false)]
pub fn table_stats_json(m: &TableSnapshotMap) -> (r: String)
    ensures
        r@ == table_map_json(m@),
{
    let mut out = String::new();
    out.append("{");
    let n = m.len();
    proof {
        assert(m@.take(0) =~= Seq::<(Seq<char>, TableSnapshot)>::empty());
        assert(out@ =~= "{"@ + entries_json(m@.take(0)));
    }
    for i in 0..n
        invariant
            n == m@.len(),
            out@ == "{"@ + entries_json(m@.take(i as int)),
    {
        if i > 0 {
            out.append(",");
        }
        write_entry_json(&mut out, m.key_at(i), m.snapshot_at(i));
        proof {
            lemma_entries_json_snoc(m@.take(i as int), m@[i as int]);
            assert(m@.take(i + 1) =~= m@.take(i as int).push(m@[i as int]));
            assert(out@ =~= "{"@ + entries_json(m@.take(i + 1)));
        }
    }
    out.append("}");
    proof {
        assert(m@.take(n as int) =~= m@);
        assert(out@ =~= table_map_json(m@));
    }
    out
}

} // verus!
