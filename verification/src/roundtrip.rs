//! The round trip law: parsing a serialized table snapshot map gives back
//! exactly the entries that were serialized.
//!
//! The proof walks the document grammar: reading a literal off a text that
//! starts with it, reading back a decimal number, reading back an escaped
//! key, then one record, one entry, the entry list, and finally the whole
//! document.

use crate::json::{
    entries_json, entry_json, escape, lemma_concat_assoc, table_json, table_map_json,
};
use crate::numeric::{
    dec_digits, dec_int, is_digit_char, lemma_dec_digits_starts_with_digit,
    lemma_parse_digits_continue, parse_digits, pow10,
};
use crate::parse::{
    expect, parse_entries, parse_entry, parse_field, parse_i64, parse_number, parse_str_chars,
    parse_table_map, parse_table_obj,
};
use crate::snapshot::TableSnapshot;
use vstd::prelude::*;

verus! {

/// Reading a literal off a text that starts with it leaves the tail.
pub proof fn lemma_expect_prefix(lit: Seq<char>, rest: Seq<char>)
    ensures
        expect(lit + rest, lit) == Some(rest),
{
    assert((lit + rest).take(lit.len() as int) =~= lit);
    assert((lit + rest).skip(lit.len() as int) =~= rest);
}

/// Reading a number back: the decimal text of any 64-bit value, followed by
/// anything that does not continue the digit run, parses to that value.
pub proof fn lemma_parse_number_roundtrip(v: i64, rest: Seq<char>)
    requires
        rest.len() == 0 || !is_digit_char(rest[0]),
    ensures
        parse_i64(dec_int(v as int) + rest) == Some((v, rest)),
{
    if v >= 0 {
        let n = v as nat;
        let s = dec_digits(n) + rest;
        lemma_dec_digits_starts_with_digit(n);
        assert(s[0] == dec_digits(n)[0]);
        assert(s[0] != '-');
        lemma_parse_digits_continue(n, rest, 0);
        assert(0 * pow10(dec_digits(n).len()) + n == n);
        assert(parse_digits(rest, n) == (n, rest));
        assert(parse_number(s) == Some((v as int, rest)));
    } else {
        let n = (-(v as int)) as nat;
        assert(dec_int(v as int) + rest =~= seq!['-'] + (dec_digits(n) + rest));
        let t = seq!['-'] + (dec_digits(n) + rest);
        assert(t[0] == '-');
        assert(t.drop_first() =~= dec_digits(n) + rest);
        lemma_dec_digits_starts_with_digit(n);
        assert((dec_digits(n) + rest)[0] == dec_digits(n)[0]);
        lemma_parse_digits_continue(n, rest, 0);
        assert(0 * pow10(dec_digits(n).len()) + n == n);
        assert(parse_digits(rest, n) == (n, rest));
        assert(parse_number(t) == Some((-(n as int), rest)));
        assert(-(n as int) == v as int);
    }
}

/// Reading one labeled field back off a text that spells it.
pub proof fn lemma_parse_field_roundtrip(lit: Seq<char>, v: i64, rest: Seq<char>)
    requires
        rest.len() == 0 || !is_digit_char(rest[0]),
    ensures
        parse_field(lit + (dec_int(v as int) + rest), lit) == Some((v, rest)),
{
    lemma_expect_prefix(lit, dec_int(v as int) + rest);
    lemma_parse_number_roundtrip(v, rest);
}

/// The record text from the closing brace on.
pub open spec fn obj_tail14(t: TableSnapshot, rest: Seq<char>) -> Seq<char> {
    ("}")@ + rest
}

/// The record text from the thirteenth field's label on.
pub open spec fn obj_tail13(t: TableSnapshot, rest: Seq<char>) -> Seq<char> {
    (",\"index_blocks_hit\":")@ + (dec_int(t.index_blocks_hit as int) + obj_tail14(t, rest))
}

/// The record text from the twelfth field's label on.
pub open spec fn obj_tail12(t: TableSnapshot, rest: Seq<char>) -> Seq<char> {
    (",\"index_blocks_read\":")@ + (dec_int(t.index_blocks_read as int) + obj_tail13(t, rest))
}

/// The record text from the eleventh field's label on.
pub open spec fn obj_tail11(t: TableSnapshot, rest: Seq<char>) -> Seq<char> {
    (",\"heap_blocks_hit\":")@ + (dec_int(t.heap_blocks_hit as int) + obj_tail12(t, rest))
}

/// The record text from the tenth field's label on.
pub open spec fn obj_tail10(t: TableSnapshot, rest: Seq<char>) -> Seq<char> {
    (",\"heap_blocks_read\":")@ + (dec_int(t.heap_blocks_read as int) + obj_tail11(t, rest))
}

/// The record text from the ninth field's label on.
pub open spec fn obj_tail9(t: TableSnapshot, rest: Seq<char>) -> Seq<char> {
    (",\"dead_rows\":")@ + (dec_int(t.dead_rows as int) + obj_tail10(t, rest))
}

/// The record text from the eighth field's label on.
pub open spec fn obj_tail8(t: TableSnapshot, rest: Seq<char>) -> Seq<char> {
    (",\"live_rows\":")@ + (dec_int(t.live_rows as int) + obj_tail9(t, rest))
}

/// The record text from the seventh field's label on.
pub open spec fn obj_tail7(t: TableSnapshot, rest: Seq<char>) -> Seq<char> {
    (",\"rows_deleted\":")@ + (dec_int(t.rows_deleted as int) + obj_tail8(t, rest))
}

/// The record text from the sixth field's label on.
pub open spec fn obj_tail6(t: TableSnapshot, rest: Seq<char>) -> Seq<char> {
    (",\"rows_updated\":")@ + (dec_int(t.rows_updated as int) + obj_tail7(t, rest))
}

/// The record text from the fifth field's label on.
pub open spec fn obj_tail5(t: TableSnapshot, rest: Seq<char>) -> Seq<char> {
    (",\"rows_inserted\":")@ + (dec_int(t.rows_inserted as int) + obj_tail6(t, rest))
}

/// The record text from the fourth field's label on.
pub open spec fn obj_tail4(t: TableSnapshot, rest: Seq<char>) -> Seq<char> {
    (",\"index_rows_fetched\":")@ + (dec_int(t.index_rows_fetched as int) + obj_tail5(t, rest))
}

/// The record text from the third field's label on.
pub open spec fn obj_tail3(t: TableSnapshot, rest: Seq<char>) -> Seq<char> {
    (",\"index_scans\":")@ + (dec_int(t.index_scans as int) + obj_tail4(t, rest))
}

/// The record text from the second field's label on.
pub open spec fn obj_tail2(t: TableSnapshot, rest: Seq<char>) -> Seq<char> {
    (",\"sequential_rows_read\":")@ + (dec_int(t.sequential_rows_read as int) + obj_tail3(t, rest))
}

/// The whole record text, nested the way the reader consumes it.
pub open spec fn obj_tail1(t: TableSnapshot, rest: Seq<char>) -> Seq<char> {
    ("{\"sequential_scans\":")@ + (dec_int(t.sequential_scans as int) + obj_tail2(t, rest))
}

/// The record text regrouped the way the reader consumes it.
#[verifier::rlimit(100)]
#[verifier::spinoff_prover]
pub proof fn lemma_table_json_nested(t: TableSnapshot, rest: Seq<char>)
    ensures
        table_json(t) + rest == obj_tail1(t, rest),
{
    reveal(table_json);
    let l1 = ("{\"sequential_scans\":")@;
    let l2 = (",\"sequential_rows_read\":")@;
    let l3 = (",\"index_scans\":")@;
    let l4 = (",\"index_rows_fetched\":")@;
    let l5 = (",\"rows_inserted\":")@;
    let l6 = (",\"rows_updated\":")@;
    let l7 = (",\"rows_deleted\":")@;
    let l8 = (",\"live_rows\":")@;
    let l9 = (",\"dead_rows\":")@;
    let l10 = (",\"heap_blocks_read\":")@;
    let l11 = (",\"heap_blocks_hit\":")@;
    let l12 = (",\"index_blocks_read\":")@;
    let l13 = (",\"index_blocks_hit\":")@;
    let l14 = ("}")@;
    let d1 = dec_int(t.sequential_scans as int);
    let d2 = dec_int(t.sequential_rows_read as int);
    let d3 = dec_int(t.index_scans as int);
    let d4 = dec_int(t.index_rows_fetched as int);
    let d5 = dec_int(t.rows_inserted as int);
    let d6 = dec_int(t.rows_updated as int);
    let d7 = dec_int(t.rows_deleted as int);
    let d8 = dec_int(t.live_rows as int);
    let d9 = dec_int(t.dead_rows as int);
    let d10 = dec_int(t.heap_blocks_read as int);
    let d11 = dec_int(t.heap_blocks_hit as int);
    let d12 = dec_int(t.index_blocks_hit as int);
    let a1 = l1;
    let b1 = a1 + d1;
    let a2 = b1 + l2;
    let b2 = a2 + d2;
    let a3 = b2 + l3;
    let b3 = a3 + d3;
    let a4 = b3 + l4;
    let b4 = a4 + d4;
    let a5 = b4 + l5;
    let b5 = a5 + d5;
    let a6 = b5 + l6;
    let b6 = a6 + d6;
    let a7 = b6 + l7;
    let b7 = a7 + d7;
    let a8 = b7 + l8;
    let b8 = a8 + d8;
    let a9 = b8 + l9;
    let b9 = a9 + d9;
    let a10 = b9 + l10;
    let b10 = a10 + d10;
    let a11 = b10 + l11;
    let b11 = a11 + d11;
    let a12 = b11 + l12;
    let b12 = a12 + dec_int(t.index_blocks_read as int);
    let a13 = b12 + l13;
    let b13 = a13 + d12;
    assert(table_json(t) == b13 + l14);
    let t14 = obj_tail14(t, rest);
    lemma_concat_assoc(b13, l14, rest);
    assert(table_json(t) + rest == b13 + t14);
    let u13 = d12 + t14;
    lemma_concat_assoc(a13, d12, t14);
    lemma_concat_assoc(b12, l13, u13);
    assert(table_json(t) + rest == b12 + obj_tail13(t, rest));
    let t13 = obj_tail13(t, rest);
    let u12 = dec_int(t.index_blocks_read as int) + t13;
    lemma_concat_assoc(a12, dec_int(t.index_blocks_read as int), t13);
    lemma_concat_assoc(b11, l12, u12);
    assert(table_json(t) + rest == b11 + obj_tail12(t, rest));
    let t12 = obj_tail12(t, rest);
    let u11 = d11 + t12;
    lemma_concat_assoc(a11, d11, t12);
    lemma_concat_assoc(b10, l11, u11);
    assert(table_json(t) + rest == b10 + obj_tail11(t, rest));
    let t11 = obj_tail11(t, rest);
    let u10 = d10 + t11;
    lemma_concat_assoc(a10, d10, t11);
    lemma_concat_assoc(b9, l10, u10);
    assert(table_json(t) + rest == b9 + obj_tail10(t, rest));
    let t10 = obj_tail10(t, rest);
    let u9 = d9 + t10;
    lemma_concat_assoc(a9, d9, t10);
    lemma_concat_assoc(b8, l9, u9);
    assert(table_json(t) + rest == b8 + obj_tail9(t, rest));
    let t9 = obj_tail9(t, rest);
    let u8 = d8 + t9;
    lemma_concat_assoc(a8, d8, t9);
    lemma_concat_assoc(b7, l8, u8);
    assert(table_json(t) + rest == b7 + obj_tail8(t, rest));
    let t8 = obj_tail8(t, rest);
    let u7 = d7 + t8;
    lemma_concat_assoc(a7, d7, t8);
    lemma_concat_assoc(b6, l7, u7);
    assert(table_json(t) + rest == b6 + obj_tail7(t, rest));
    let t7 = obj_tail7(t, rest);
    let u6 = d6 + t7;
    lemma_concat_assoc(a6, d6, t7);
    lemma_concat_assoc(b5, l6, u6);
    assert(table_json(t) + rest == b5 + obj_tail6(t, rest));
    let t6 = obj_tail6(t, rest);
    let u5 = d5 + t6;
    lemma_concat_assoc(a5, d5, t6);
    lemma_concat_assoc(b4, l5, u5);
    assert(table_json(t) + rest == b4 + obj_tail5(t, rest));
    let t5 = obj_tail5(t, rest);
    let u4 = d4 + t5;
    lemma_concat_assoc(a4, d4, t5);
    lemma_concat_assoc(b3, l4, u4);
    assert(table_json(t) + rest == b3 + obj_tail4(t, rest));
    let t4 = obj_tail4(t, rest);
    let u3 = d3 + t4;
    lemma_concat_assoc(a3, d3, t4);
    lemma_concat_assoc(b2, l3, u3);
    assert(table_json(t) + rest == b2 + obj_tail3(t, rest));
    let t3 = obj_tail3(t, rest);
    let u2 = d2 + t3;
    lemma_concat_assoc(a2, d2, t3);
    lemma_concat_assoc(b1, l2, u2);
    assert(table_json(t) + rest == b1 + obj_tail2(t, rest));
    let t2 = obj_tail2(t, rest);
    let u1 = d1 + t2;
    lemma_concat_assoc(a1, d1, t2);
    assert(table_json(t) + rest == l1 + u1);
    assert(l1 + u1 == obj_tail1(t, rest));
}

/// Each suffix of the record text begins with punctuation, never a digit, so
/// it always ends the digit run before it.
#[verifier::spinoff_prover]
pub proof fn lemma_obj_tails_start_unnumbered(t: TableSnapshot, rest: Seq<char>)
    ensures
        !is_digit_char(obj_tail2(t, rest)[0]),
        !is_digit_char(obj_tail3(t, rest)[0]),
        !is_digit_char(obj_tail4(t, rest)[0]),
        !is_digit_char(obj_tail5(t, rest)[0]),
        !is_digit_char(obj_tail6(t, rest)[0]),
        !is_digit_char(obj_tail7(t, rest)[0]),
        !is_digit_char(obj_tail8(t, rest)[0]),
        !is_digit_char(obj_tail9(t, rest)[0]),
        !is_digit_char(obj_tail10(t, rest)[0]),
        !is_digit_char(obj_tail11(t, rest)[0]),
        !is_digit_char(obj_tail12(t, rest)[0]),
        !is_digit_char(obj_tail13(t, rest)[0]),
        !is_digit_char(obj_tail14(t, rest)[0]),
{
    reveal_strlit(",\"sequential_rows_read\":");
    reveal_strlit(",\"index_scans\":");
    reveal_strlit(",\"index_rows_fetched\":");
    reveal_strlit(",\"rows_inserted\":");
    reveal_strlit(",\"rows_updated\":");
    reveal_strlit(",\"rows_deleted\":");
    reveal_strlit(",\"live_rows\":");
    reveal_strlit(",\"dead_rows\":");
    reveal_strlit(",\"heap_blocks_read\":");
    reveal_strlit(",\"heap_blocks_hit\":");
    reveal_strlit(",\"index_blocks_read\":");
    reveal_strlit(",\"index_blocks_hit\":");
    reveal_strlit("}");
}

/// Reading one per-table record back off its own document text.
#[verifier::rlimit(100)]
#[verifier::spinoff_prover]
pub proof fn lemma_table_obj_roundtrip(t: TableSnapshot, rest: Seq<char>)
    ensures
        parse_table_obj(table_json(t) + rest) == Some((t, rest)),
{
    reveal(parse_table_obj);
    lemma_table_json_nested(t, rest);
    lemma_obj_tails_start_unnumbered(t, rest);
    lemma_parse_field_roundtrip(("{\"sequential_scans\":")@, t.sequential_scans, obj_tail2(t, rest));
    lemma_parse_field_roundtrip(
        (",\"sequential_rows_read\":")@,
        t.sequential_rows_read,
        obj_tail3(t, rest),
    );
    lemma_parse_field_roundtrip((",\"index_scans\":")@, t.index_scans, obj_tail4(t, rest));
    lemma_parse_field_roundtrip(
        (",\"index_rows_fetched\":")@,
        t.index_rows_fetched,
        obj_tail5(t, rest),
    );
    lemma_parse_field_roundtrip((",\"rows_inserted\":")@, t.rows_inserted, obj_tail6(t, rest));
    lemma_parse_field_roundtrip((",\"rows_updated\":")@, t.rows_updated, obj_tail7(t, rest));
    lemma_parse_field_roundtrip((",\"rows_deleted\":")@, t.rows_deleted, obj_tail8(t, rest));
    lemma_parse_field_roundtrip((",\"live_rows\":")@, t.live_rows, obj_tail9(t, rest));
    lemma_parse_field_roundtrip((",\"dead_rows\":")@, t.dead_rows, obj_tail10(t, rest));
    lemma_parse_field_roundtrip(
        (",\"heap_blocks_read\":")@,
        t.heap_blocks_read,
        obj_tail11(t, rest),
    );
    lemma_parse_field_roundtrip((",\"heap_blocks_hit\":")@, t.heap_blocks_hit, obj_tail12(t, rest));
    lemma_parse_field_roundtrip(
        (",\"index_blocks_read\":")@,
        t.index_blocks_read,
        obj_tail13(t, rest),
    );
    lemma_parse_field_roundtrip(
        (",\"index_blocks_hit\":")@,
        t.index_blocks_hit,
        obj_tail14(t, rest),
    );
    lemma_expect_prefix(("}")@, rest);
}

/// Reading an escaped key back, through its closing quote.
pub proof fn lemma_key_roundtrip(k: Seq<char>, rest: Seq<char>)
    ensures
        parse_str_chars(escape(k) + (("\"")@ + rest)) == Some((k, rest)),
    decreases k.len(),
{
    reveal_strlit("\"");
    if k.len() == 0 {
        let s = escape(k) + (("\"")@ + rest);
        assert(s =~= ("\"")@ + rest);
        assert(s[0] == '"');
        assert(s.drop_first() =~= rest);
    } else {
        let c = k[0];
        let kd = k.drop_first();
        lemma_key_roundtrip(kd, rest);
        let inner = escape(kd) + (("\"")@ + rest);
        if c == '"' || c == '\\' {
            let s = escape(k) + (("\"")@ + rest);
            assert(s =~= seq!['\\'] + (seq![c] + inner));
            assert(s[0] == '\\');
            assert(s.len() >= 2);
            assert(s[1] == c);
            assert(s.skip(2) =~= inner);
            assert(seq![c] + kd =~= k);
        } else {
            let s = escape(k) + (("\"")@ + rest);
            assert(s =~= seq![c] + inner);
            assert(s[0] == c);
            assert(s.drop_first() =~= inner);
            assert(seq![c] + kd =~= k);
        }
    }
}

/// Reading one entry back off its own document text.
pub proof fn lemma_entry_roundtrip(k: Seq<char>, t: TableSnapshot, rest: Seq<char>)
    ensures
        parse_entry(entry_json(k, t) + rest) == Some(((k, t), rest)),
{
    reveal_strlit("\"");
    reveal_strlit(":");
    reveal_strlit("\":");
    assert(("\":")@ =~= ("\"")@ + (":")@);
    let r3 = table_json(t) + rest;
    let r2 = (":")@ + r3;
    let r1 = escape(k) + (("\"")@ + r2);
    assert(entry_json(k, t) + rest =~= ("\"")@ + r1);
    lemma_expect_prefix(("\"")@, r1);
    lemma_key_roundtrip(k, r2);
    lemma_expect_prefix((":")@, r3);
    lemma_table_obj_roundtrip(t, rest);
}

/// The entry list is at least as long in characters as in entries.
pub proof fn lemma_entries_json_len(es: Seq<(Seq<char>, TableSnapshot)>)
    ensures
        entries_json(es).len() >= es.len(),
    decreases es.len(),
{
    reveal_strlit("\"");
    if es.len() == 0 {
    } else if es.len() == 1 {
        assert(entry_json(es[0].0, es[0].1).len() >= 1);
    } else {
        lemma_entries_json_len(es.drop_first());
        assert(entry_json(es[0].0, es[0].1).len() >= 1);
    }
}

/// Reading a non-empty entry list back off its own document text, given
/// fuel for every entry and a tail that does not continue the list.
pub proof fn lemma_entries_roundtrip(
    es: Seq<(Seq<char>, TableSnapshot)>,
    rest: Seq<char>,
    fuel: nat,
)
    requires
        es.len() >= 1,
        fuel >= es.len(),
        rest.len() == 0 || rest[0] != ',',
    ensures
        parse_entries(entries_json(es) + rest, fuel) == Some((es, rest)),
    decreases es.len(),
{
    reveal_strlit(",");
    let e = es[0];
    if es.len() == 1 {
        assert(entries_json(es) + rest =~= entry_json(e.0, e.1) + rest);
        lemma_entry_roundtrip(e.0, e.1, rest);
        assert(seq![e] =~= es);
    } else {
        let tail = es.drop_first();
        let b = entries_json(tail);
        let r1 = (",")@ + (b + rest);
        assert(entries_json(es) + rest =~= entry_json(e.0, e.1) + r1);
        lemma_entry_roundtrip(e.0, e.1, r1);
        assert(r1.len() > 0 && r1[0] == ',');
        assert(r1.drop_first() =~= b + rest);
        lemma_entries_roundtrip(tail, rest, (fuel - 1) as nat);
        assert(seq![e] + tail =~= es);
    }
}

/// The round trip law: serializing a table snapshot map and reading the
/// document back yields exactly the entries that were serialized — the same
/// keys, each with identical field values, in the same order.
pub proof fn lemma_table_map_roundtrip(es: Seq<(Seq<char>, TableSnapshot)>)
    ensures
        parse_table_map(table_map_json(es)) == Some(es),
{
    reveal_strlit("{");
    reveal_strlit("}");
    reveal_strlit("\"");
    let r = entries_json(es) + ("}")@;
    assert(table_map_json(es) =~= ("{")@ + r);
    lemma_expect_prefix(("{")@, r);
    if es.len() == 0 {
        assert(r =~= ("}")@);
        assert(r.len() == 1 && r[0] == '}');
    } else {
        let e = es[0];
        assert(entries_json(es)[0] == entry_json(e.0, e.1)[0]);
        assert(entry_json(e.0, e.1)[0] == '"');
        assert(r[0] == '"');
        assert(r[0] != '}');
        lemma_entries_json_len(es);
        assert(r.len() >= es.len());
        lemma_entries_roundtrip(es, ("}")@, r.len() as nat);
        assert((("}")@).len() == 1 && (("}")@)[0] == '}');
    }
}

} // verus!
