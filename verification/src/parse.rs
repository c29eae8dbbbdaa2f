//! A reader for the table snapshot document.
//!
//! The monitoring side of the pipeline needs the serialized table map back as
//! values, so the document format is defined in both directions: the spec
//! functions here read a document suffix and hand back the parsed value with
//! the unread remainder, and the executable parser is proved to agree with
//! them exactly.  Numbers are scanned greedily with an overflow guard; keys
//! are read up to their closing quote, undoing the backslash escapes.

use crate::numeric::{digit_val, is_digit_char, lemma_parse_digits_lower_bound, parse_digits};
use crate::snapshot::{TableSnapshot, TableSnapshotMap};
use vstd::arithmetic::div_mod::lemma_fundamental_div_mod;
use vstd::prelude::*;

verus! {

/// Reads a literal off the front of the input.
pub open spec fn expect(s: Seq<char>, lit: Seq<char>) -> Option<Seq<char>> {
    if lit.len() <= s.len() && s.take(lit.len() as int) == lit {
        Some(s.skip(lit.len() as int))
    } else {
        None
    }
}

/// Reads an optional minus sign and a greedy run of digits; the value is
/// unbounded here, range checking is the caller's.
pub open spec fn parse_number(s: Seq<char>) -> Option<(int, Seq<char>)> {
    let neg = s.len() > 0 && s[0] == '-';
    let body = if neg {
        s.drop_first()
    } else {
        s
    };
    if body.len() > 0 && is_digit_char(body[0]) {
        let (m, rest) = parse_digits(body, 0);
        Some(
            (
                if neg {
                    -(m as int)
                } else {
                    m as int
                },
                rest,
            ),
        )
    } else {
        None
    }
}

/// Reads a number and requires it to fit a signed 64-bit counter.
pub open spec fn parse_i64(s: Seq<char>) -> Option<(i64, Seq<char>)> {
    match parse_number(s) {
        Some((v, rest)) => if i64::MIN <= v <= i64::MAX {
            Some((v as i64, rest))
        } else {
            None
        },
        None => None,
    }
}

/// Reads one labeled number: the literal (label text and punctuation), then
/// the value.
pub open spec fn parse_field(s: Seq<char>, lit: Seq<char>) -> Option<(i64, Seq<char>)> {
    match expect(s, lit) {
        Some(r) => parse_i64(r),
        None => None,
    }
}

/// Reads key characters up to the closing quote, undoing the backslash
/// escapes; fails on an unterminated key.
pub open spec fn parse_str_chars(s: Seq<char>) -> Option<(Seq<char>, Seq<char>)>
    decreases s.len(),
{
    if s.len() == 0 {
        None
    } else if s[0] == '"' {
        Some((Seq::<char>::empty(), s.drop_first()))
    } else if s[0] == '\\' {
        if s.len() >= 2 {
            match parse_str_chars(s.skip(2)) {
                Some((k, r)) => Some((seq![s[1]] + k, r)),
                None => None,
            }
        } else {
            None
        }
    } else {
        match parse_str_chars(s.drop_first()) {
            Some((k, r)) => Some((seq![s[0]] + k, r)),
            None => None,
        }
    }
}

/// Reads one per-table record: all thirteen fields, in the fixed order the
/// serializer writes them.
#[verifier::opaque]
pub open spec fn parse_table_obj(s: Seq<char>) -> Option<(TableSnapshot, Seq<char>)> {
    match parse_field(s, "{\"sequential_scans\":"@) {
        Some((v1, s1)) => match parse_field(s1, ",\"sequential_rows_read\":"@) {
            Some((v2, s2)) => match parse_field(s2, ",\"index_scans\":"@) {
                Some((v3, s3)) => match parse_field(s3, ",\"index_rows_fetched\":"@) {
                    Some((v4, s4)) => match parse_field(s4, ",\"rows_inserted\":"@) {
                        Some((v5, s5)) => match parse_field(s5, ",\"rows_updated\":"@) {
                            Some((v6, s6)) => match parse_field(s6, ",\"rows_deleted\":"@) {
                                Some((v7, s7)) => match parse_field(s7, ",\"live_rows\":"@) {
                                    Some((v8, s8)) => match parse_field(s8, ",\"dead_rows\":"@) {
                                        Some((v9, s9)) => match parse_field(
                                            s9,
                                            ",\"heap_blocks_read\":"@,
                                        ) {
                                            Some((v10, s10)) => match parse_field(
                                                s10,
                                                ",\"heap_blocks_hit\":"@,
                                            ) {
                                                Some((v11, s11)) => match parse_field(
                                                    s11,
                                                    ",\"index_blocks_read\":"@,
                                                ) {
                                                    Some((v12, s12)) => match parse_field(
                                                        s12,
                                                        ",\"index_blocks_hit\":"@,
                                                    ) {
                                                        Some((v13, s13)) => match expect(
                                                            s13,
                                                            "}"@,
                                                        ) {
                                                            Some(s14) => Some(
                                                                (
                                                                    TableSnapshot {
                                                                        sequential_scans: v1,
                                                                        sequential_rows_read: v2,
                                                                        index_scans: v3,
                                                                        index_rows_fetched: v4,
                                                                        rows_inserted: v5,
                                                                        rows_updated: v6,
                                                                        rows_deleted: v7,
                                                                        live_rows: v8,
                                                                        dead_rows: v9,
                                                                        heap_blocks_read: v10,
                                                                        heap_blocks_hit: v11,
                                                                        index_blocks_read: v12,
                                                                        index_blocks_hit: v13,
                                                                    },
                                                                    s14,
                                                                ),
                                                            ),
                                                            None => None,
                                                        },
                                                        None => None,
                                                    },
                                                    None => None,
                                                },
                                                None => None,
                                            },
                                            None => None,
                                        },
                                        None => None,
                                    },
                                    None => None,
                                },
                                None => None,
                            },
                            None => None,
                        },
                        None => None,
                    },
                    None => None,
                },
                None => None,
            },
            None => None,
        },
        None => None,
    }
}

/// Reads one map entry: the quoted key and its record.
pub open spec fn parse_entry(s: Seq<char>) -> Option<((Seq<char>, TableSnapshot), Seq<char>)> {
    match expect(s, "\""@) {
        Some(r1) => match parse_str_chars(r1) {
            Some((k, r2)) => match expect(r2, ":"@) {
                Some(r3) => match parse_table_obj(r3) {
                    Some((t, r4)) => Some(((k, t), r4)),
                    None => None,
                },
                None => None,
            },
            None => None,
        },
        None => None,
    }
}

/// Reads a non-empty comma-separated entry list.  The fuel only bounds the
/// recursion; every entry consumes input, so the input length is always fuel
/// enough.
pub open spec fn parse_entries(s: Seq<char>, fuel: nat) -> Option<
    (Seq<(Seq<char>, TableSnapshot)>, Seq<char>),
>
    decreases fuel,
{
    if fuel == 0 {
        None
    } else {
        match parse_entry(s) {
            Some((e, r)) => if r.len() > 0 && r[0] == ',' {
                match parse_entries(r.drop_first(), (fuel - 1) as nat) {
                    Some((es, r2)) => Some((seq![e] + es, r2)),
                    None => None,
                }
            } else {
                Some((seq![e], r))
            },
            None => None,
        }
    }
}

/// Reads a whole table snapshot document: the entry object, with nothing
/// after it.
pub open spec fn parse_table_map(s: Seq<char>) -> Option<Seq<(Seq<char>, TableSnapshot)>> {
    match expect(s, "{"@) {
        Some(r) => if r.len() > 0 && r[0] == '}' {
            if r.len() == 1 {
                Some(Seq::<(Seq<char>, TableSnapshot)>::empty())
            } else {
                None
            }
        } else {
            match parse_entries(r, r.len()) {
                Some((es, r2)) => if r2.len() == 1 && r2[0] == '}' {
                    Some(es)
                } else {
                    None
                },
                None => None,
            }
        },
        None => None,
    }
}

/// Whether a character is one of the ten digit characters.
pub fn is_ascii_digit(c: char) -> (b: bool)
    ensures
        b == is_digit_char(c),
{
    let u = c as u32;
    48 <= u && u <= 57
}

/// Reads a literal off the front of the input, returning the remainder.
#[verifier::loop_isolation(false)]
pub fn expect_lit<'a>(s: &'a str, lit: &str) -> (r: Option<&'a str>)
    ensures
        match r {
            Some(rest) => expect(s@, lit@) == Some(rest@),
            None => expect(s@, lit@) is None,
        },
{
    let n = lit.unicode_len();
    let m = s.unicode_len();
    if n > m {
        return None;
    }
    for i in 0..n
        invariant
            n == lit@.len(),
            m == s@.len(),
            n <= m,
            forall|j: int| 0 <= j < i ==> s@[j] == lit@[j],
    {
        if s.get_char(i) != lit.get_char(i) {
            proof {
                assert(s@.take(n as int)[i as int] != lit@[i as int]);
            }
            return None;
        }
    }
    proof {
        assert(s@.take(n as int) =~= lit@);
    }
    Some(s.substring_char(n, m))
}

/// Reads a decimal number off the front of the input, returning the value
/// and the remainder; fails if there is no digit or the value does not fit.
#[verifier::loop_isolation(false)]
pub fn parse_i64_prefix<'a>(s: &'a str) -> (r: Option<(i64, &'a str)>)
    ensures
        match r {
            Some((v, rest)) => parse_i64(s@) == Some((v, rest@)),
            None => parse_i64(s@) is None,
        },
{
    let m = s.unicode_len();
    let mut i: usize = 0;
    let mut neg = false;
    if m > 0 && s.get_char(0) == '-' {
        neg = true;
        i = 1;
    }
    let ghost body = s@.skip(i as int);
    proof {
        if neg {
            assert(s@.skip(1) =~= s@.drop_first());
        } else {
            assert(s@.skip(0) =~= s@);
        }
    }
    if i >= m {
        return None;
    }
    let c0 = s.get_char(i) as u32;
    if !(48 <= c0 && c0 <= 57) {
        proof {
            assert(body[0] == s@[i as int]);
            assert(body.len() > 0 && !is_digit_char(body[0]));
        }
        return None;
    }
    proof {
        assert(body[0] == s@[i as int]);
        assert(body.len() > 0 && is_digit_char(body[0]));
    }
    let mut acc: u64 = 0;
    while i < m && is_ascii_digit(s.get_char(i))
        invariant
            i <= m,
            m == s@.len(),
            parse_digits(body, 0) == parse_digits(s@.skip(i as int), acc as nat),
        decreases m - i,
    {
        let cu = s.get_char(i) as u32;
        let d: u64 = (cu - 48) as u64;
        proof {
            assert(s@.skip(i as int)[0] == s@[i as int]);
            assert(s@.skip(i as int).drop_first() =~= s@.skip(i + 1));
            assert(digit_val(s@[i as int]) == d as nat);
        }
        if acc > (u64::MAX - d) / 10 {
            proof {
                lemma_fundamental_div_mod((u64::MAX - d) as int, 10);
                assert(acc * 10 + d > u64::MAX);
                lemma_parse_digits_lower_bound(s@.skip(i + 1), (acc * 10 + d) as nat);
                assert(parse_digits(body, 0).0 > u64::MAX);
            }
            return None;
        }
        proof {
            lemma_fundamental_div_mod((u64::MAX - d) as int, 10);
            assert(acc * 10 + d <= u64::MAX);
        }
        acc = acc * 10 + d;
        i = i + 1;
    }
    proof {
        if i < m {
            assert(s@.skip(i as int)[0] == s@[i as int]);
        }
        assert(parse_digits(s@.skip(i as int), acc as nat) == (acc as nat, s@.skip(i as int)));
    }
    let rest = s.substring_char(i, m);
    if neg {
        if acc > 9223372036854775808 {
            return None;
        }
        let v: i64 = if acc == 9223372036854775808 {
            i64::MIN
        } else {
            -(acc as i64)
        };
        Some((v, rest))
    } else {
        if acc > 9223372036854775807 {
            return None;
        }
        Some((acc as i64, rest))
    }
}

/// Reads key characters up to the closing quote, undoing the backslash
/// escapes, and returns the key with the remainder after the quote.
#[verifier::loop_isolation(false)]
pub fn parse_key_prefix<'a>(s: &'a str) -> (r: Option<(String, &'a str)>)
    ensures
        match r {
            Some((k, rest)) => parse_str_chars(s@) == Some((k@, rest@)),
            None => parse_str_chars(s@) is None,
        },
{
    let m = s.unicode_len();
    let mut out = String::new();
    let mut i: usize = 0;
    proof {
        assert(s@.skip(0) =~= s@);
        match parse_str_chars(s@) {
            Some((k, r)) => {
                assert(out@ + k =~= k);
            },
            None => {},
        }
    }
    loop
        invariant
            i <= m,
            m == s@.len(),
            parse_str_chars(s@) == match parse_str_chars(s@.skip(i as int)) {
                Some((k, r)) => Some((out@ + k, r)),
                None => None::<(Seq<char>, Seq<char>)>,
            },
        decreases m - i,
    {
        if i >= m {
            proof {
                assert(s@.skip(i as int).len() == 0);
            }
            return None;
        }
        let c = s.get_char(i);
        proof {
            assert(s@.skip(i as int)[0] == s@[i as int]);
        }
        if c == '"' {
            proof {
                assert(s@.skip(i as int).drop_first() =~= s@.skip(i + 1));
                assert(out@ + Seq::<char>::empty() =~= out@);
            }
            let rest = s.substring_char(i + 1, m);
            proof {
                assert(rest@ =~= s@.skip(i + 1));
            }
            return Some((out, rest));
        } else if c == '\\' {
            if i + 1 >= m {
                proof {
                    assert(s@.skip(i as int).len() < 2);
                }
                return None;
            }
            let c2 = s.get_char(i + 1);
            let ghost prev = out@;
            proof {
                assert(s@.skip(i as int)[1] == s@[i + 1]);
                assert(s@.skip(i as int).skip(2) =~= s@.skip(i + 2));
            }
            out.push(c2);
            proof {
                match parse_str_chars(s@.skip(i + 2)) {
                    Some((k2, r2)) => {
                        assert(prev + (seq![s@[i + 1]] + k2) =~= out@ + k2);
                    },
                    None => {},
                }
            }
            i = i + 2;
        } else {
            let ghost prev = out@;
            proof {
                assert(s@.skip(i as int).drop_first() =~= s@.skip(i + 1));
            }
            out.push(c);
            proof {
                match parse_str_chars(s@.skip(i + 1)) {
                    Some((k2, r2)) => {
                        assert(prev + (seq![s@[i as int]] + k2) =~= out@ + k2);
                    },
                    None => {},
                }
            }
            i = i + 1;
        }
    }
}

/// Reads one per-table record off the front of the input.
pub fn parse_table_obj_prefix<'a>(s: &'a str) -> (r: Option<(TableSnapshot, &'a str)>)
    ensures
        match r {
            Some((t, rest)) => parse_table_obj(s@) == Some((t, rest@)),
            None => parse_table_obj(s@) is None,
        },
{
    proof {
        reveal(parse_table_obj);
    }
    let s1 = match expect_lit(s, "{\"sequential_scans\":") {
        Some(r) => r,
        None => {
            return None;
        },
    };
    let (v1, s1) = match parse_i64_prefix(s1) {
        Some(p) => p,
        None => {
            return None;
        },
    };
    let s2 = match expect_lit(s1, ",\"sequential_rows_read\":") {
        Some(r) => r,
        None => {
            return None;
        },
    };
    let (v2, s2) = match parse_i64_prefix(s2) {
        Some(p) => p,
        None => {
            return None;
        },
    };
    let s3 = match expect_lit(s2, ",\"index_scans\":") {
        Some(r) => r,
        None => {
            return None;
        },
    };
    let (v3, s3) = match parse_i64_prefix(s3) {
        Some(p) => p,
        None => {
            return None;
        },
    };
    let s4 = match expect_lit(s3, ",\"index_rows_fetched\":") {
        Some(r) => r,
        None => {
            return None;
        },
    };
    let (v4, s4) = match parse_i64_prefix(s4) {
        Some(p) => p,
        None => {
            return None;
        },
    };
    let s5 = match expect_lit(s4, ",\"rows_inserted\":") {
        Some(r) => r,
        None => {
            return None;
        },
    };
    let (v5, s5) = match parse_i64_prefix(s5) {
        Some(p) => p,
        None => {
            return None;
        },
    };
    let s6 = match expect_lit(s5, ",\"rows_updated\":") {
        Some(r) => r,
        None => {
            return None;
        },
    };
    let (v6, s6) = match parse_i64_prefix(s6) {
        Some(p) => p,
        None => {
            return None;
        },
    };
    let s7 = match expect_lit(s6, ",\"rows_deleted\":") {
        Some(r) => r,
        None => {
            return None;
        },
    };
    let (v7, s7) = match parse_i64_prefix(s7) {
        Some(p) => p,
        None => {
            return None;
        },
    };
    let s8 = match expect_lit(s7, ",\"live_rows\":") {
        Some(r) => r,
        None => {
            return None;
        },
    };
    let (v8, s8) = match parse_i64_prefix(s8) {
        Some(p) => p,
        None => {
            return None;
        },
    };
    let s9 = match expect_lit(s8, ",\"dead_rows\":") {
        Some(r) => r,
        None => {
            return None;
        },
    };
    let (v9, s9) = match parse_i64_prefix(s9) {
        Some(p) => p,
        None => {
            return None;
        },
    };
    let s10 = match expect_lit(s9, ",\"heap_blocks_read\":") {
        Some(r) => r,
        None => {
            return None;
        },
    };
    let (v10, s10) = match parse_i64_prefix(s10) {
        Some(p) => p,
        None => {
            return None;
        },
    };
    let s11 = match expect_lit(s10, ",\"heap_blocks_hit\":") {
        Some(r) => r,
        None => {
            return None;
        },
    };
    let (v11, s11) = match parse_i64_prefix(s11) {
        Some(p) => p,
        None => {
            return None;
        },
    };
    let s12 = match expect_lit(s11, ",\"index_blocks_read\":") {
        Some(r) => r,
        None => {
            return None;
        },
    };
    let (v12, s12) = match parse_i64_prefix(s12) {
        Some(p) => p,
        None => {
            return None;
        },
    };
    let s13 = match expect_lit(s12, ",\"index_blocks_hit\":") {
        Some(r) => r,
        None => {
            return None;
        },
    };
    let (v13, s13) = match parse_i64_prefix(s13) {
        Some(p) => p,
        None => {
            return None;
        },
    };
    let s14 = match expect_lit(s13, "}") {
        Some(r) => r,
        None => {
            return None;
        },
    };
    Some(
        (
            TableSnapshot {
                sequential_scans: v1,
                sequential_rows_read: v2,
                index_scans: v3,
                index_rows_fetched: v4,
                rows_inserted: v5,
                rows_updated: v6,
                rows_deleted: v7,
                live_rows: v8,
                dead_rows: v9,
                heap_blocks_read: v10,
                heap_blocks_hit: v11,
                index_blocks_read: v12,
                index_blocks_hit: v13,
            },
            s14,
        ),
    )
}

/// Reads one map entry off the front of the input.
pub fn parse_entry_prefix<'a>(s: &'a str) -> (r: Option<((String, TableSnapshot), &'a str)>)
    ensures
        match r {
            Some(((k, t), rest)) => parse_entry(s@) == Some(((k@, t), rest@)),
            None => parse_entry(s@) is None,
        },
{
    let r1 = match expect_lit(s, "\"") {
        Some(r) => r,
        None => {
            return None;
        },
    };
    let (k, r2) = match parse_key_prefix(r1) {
        Some(p) => p,
        None => {
            return None;
        },
    };
    let r3 = match expect_lit(r2, ":") {
        Some(r) => r,
        None => {
            return None;
        },
    };
    let (t, r4) = match parse_table_obj_prefix(r3) {
        Some(p) => p,
        None => {
            return None;
        },
    };
    Some(((k, t), r4))
}

/// Reads a non-empty entry list off the front of the input, mirroring the
/// fueled scan of the format definition.
pub fn parse_entries_prefix<'a>(s: &'a str, fuel: usize) -> (r: Option<(TableSnapshotMap, &'a str)>)
    ensures
        match r {
            Some((m, rest)) => parse_entries(s@, fuel as nat) == Some((m@, rest@)),
            None => parse_entries(s@, fuel as nat) is None,
        },
    decreases fuel,
{
    if fuel == 0 {
        return None;
    }
    let ((k, t), r) = match parse_entry_prefix(s) {
        Some(p) => p,
        None => {
            return None;
        },
    };
    let rn = r.unicode_len();
    if rn > 0 && r.get_char(0) == ',' {
        proof {
            assert(r@[0] == ',');
            assert(r@.skip(1) =~= r@.drop_first());
        }
        let r1 = r.substring_char(1, rn);
        proof {
            assert(r1@ =~= r@.drop_first());
        }
        match parse_entries_prefix(r1, fuel - 1) {
            Some((mut m, r2)) => {
                m.prepend_entry(k, t);
                Some((m, r2))
            },
            None => None,
        }
    } else {
        let mut m = TableSnapshotMap::new();
        let ghost kv = k@;
        m.prepend_entry(k, t);
        proof {
            assert(m@ =~= seq![(kv, t)]);
        }
        Some((m, r))
    }
}

/// Reads a whole table snapshot document back into a map.  The result holds
/// exactly the entries of the document, in document order; on any deviation
/// from the format the result is `None`, never a partial map.
pub fn parse_table_stats(s: &str) -> (r: Option<TableSnapshotMap>)
    ensures
        match r {
            Some(m) => parse_table_map(s@) == Some(m@),
            None => parse_table_map(s@) is None,
        },
{
    let rest = match expect_lit(s, "{") {
        Some(r) => r,
        None => {
            return None;
        },
    };
    let rn = rest.unicode_len();
    if rn > 0 && rest.get_char(0) == '}' {
        if rn == 1 {
            return Some(TableSnapshotMap::new());
        }
        return None;
    }
    match parse_entries_prefix(rest, rn) {
        Some((m, r2)) => {
            let r2n = r2.unicode_len();
            if r2n == 1 && r2.get_char(0) == '}' {
                Some(m)
            } else {
                None
            }
        },
        None => None,
    }
}

} // verus!
