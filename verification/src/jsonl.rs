//! Line framing of JSONL trajectory files: which bytes form the records and on which lines.
//!
//! A file is cut into lines at each `\n`; a line drops a `\r` that stands just before its
//! `\n`; no empty line follows a final `\n`. Lines that hold only white space are skipped,
//! and every other line is one record. Decoding a record as JSON is the caller's part.

use vstd::prelude::*;

verus! {

/// One record: the line number (counted from 1) and the byte range `start..end` of its text.
#[derive(Clone, Copy, Debug, PartialEq, Eq, Structural)]
pub struct JsonlRecord {
    pub line_number: usize,
    pub start: usize,
    pub end: usize,
}

/// Length of the white-space character whose UTF-8 encoding starts `t`, or 0 if `t` does not
/// start with one. The white-space characters are those of Unicode's White_Space property:
/// tab, line feed, vertical tab, form feed, carriage return and space (one byte); U+0085 and
/// U+00A0 (two bytes); U+1680, U+2000 to U+200A, U+2028, U+2029, U+202F, U+205F and U+3000
/// (three bytes).
pub open spec fn white_space_len(t: Seq<u8>) -> int {
    if t.len() >= 1 && (t[0] == 9 || t[0] == 10 || t[0] == 11 || t[0] == 12 || t[0] == 13 || t[0] == 32) {
        1
    } else if t.len() >= 2 && t[0] == 0xC2 && (t[1] == 0x85 || t[1] == 0xA0) {
        2
    } else if t.len() >= 3 && ((t[0] == 0xE1 && t[1] == 0x9A && t[2] == 0x80) || (t[0] == 0xE2 && t[1]
        == 0x80 && ((0x80 <= t[2] && t[2] <= 0x8A) || t[2] == 0xA8 || t[2] == 0xA9 || t[2] == 0xAF)) || (
    t[0] == 0xE2 && t[1] == 0x81 && t[2] == 0x9F) || (t[0] == 0xE3 && t[1] == 0x80 && t[2] == 0x80)) {
        3
    } else {
        0
    }
}

/// Whether `t` is a run of white-space characters (the empty run included). The encodings
/// above are prefix-free, so reading them one after the other from the front decides it.
pub open spec fn is_blank(t: Seq<u8>) -> bool
    decreases t.len(),
{
    if t.len() == 0 {
        true
    } else if white_space_len(t) == 0 {
        false
    } else {
        is_blank(t.subrange(white_space_len(t), t.len() as int))
    }
}

/// Index of the first `\n` of `t` at or after `from`, or the length of `t` if there is none.
pub open spec fn line_end(t: Seq<u8>, from: int) -> int
    decreases t.len() - from,
{
    if from >= t.len() {
        t.len() as int
    } else if t[from] == 10 {
        from
    } else {
        line_end(t, from + 1)
    }
}

/// End of the text of the line `start..end`: a `\r` just before the line's `\n` is dropped.
pub open spec fn text_end(t: Seq<u8>, start: int, end: int) -> int {
    if end < t.len() && end > start && t[end - 1] == 13 {
        end - 1
    } else {
        end
    }
}

/// The records of `t` from byte `start`, where a line begins with number `number`.
pub open spec fn records_from(t: Seq<u8>, start: int, number: int) -> Seq<(int, int, int)>
    decreases t.len() - start,
{
    if start < 0 || start >= t.len() {
        Seq::empty()
    } else {
        let end = line_end(t, start);
        let text = text_end(t, start, end);
        let rest = if start <= end && end < t.len() { records_from(t, end + 1, number + 1) } else { Seq::empty() };
        if is_blank(t.subrange(start, text)) {
            rest
        } else {
            seq![(number, start, text)] + rest
        }
    }
}

/// The records of the whole file `t`, as (line number, start, end).
pub open spec fn jsonl_records_spec(t: Seq<u8>) -> Seq<(int, int, int)> {
    records_from(t, 0, 1)
}

/// The record as a triple of integers.
pub open spec fn record_triple(r: JsonlRecord) -> (int, int, int) {
    (r.line_number as int, r.start as int, r.end as int)
}

proof fn lemma_line_end_bounds(t: Seq<u8>, from: int)
    requires
        0 <= from <= t.len(),
    ensures
        from <= line_end(t, from) <= t.len(),
        line_end(t, from) < t.len() ==> t[line_end(t, from)] == 10,
        forall|k: int| from <= k < line_end(t, from) ==> t[k] != 10,
    decreases t.len() - from,
{
    if from < t.len() && t[from] != 10 {
        lemma_line_end_bounds(t, from + 1);
    }
}

proof fn lemma_line_end_skips(t: Seq<u8>, from: int, to: int)
    requires
        0 <= from <= to <= t.len(),
        forall|k: int| from <= k < to ==> t[k] != 10,
    ensures
        line_end(t, from) == line_end(t, to),
    decreases to - from,
{
    if from < to {
        lemma_line_end_skips(t, from + 1, to);
    }
}

/// Length of the white-space character that starts at byte `i` of `bytes[..end]`, or 0.
fn white_space_len_at(bytes: &[u8], i: usize, end: usize) -> (n: usize)
    requires
        i < end <= bytes@.len(),
    ensures
        n == white_space_len(bytes@.subrange(i as int, end as int)),
        n <= end - i,
{
    let b0 = bytes[i];
    if b0 == 9 || b0 == 10 || b0 == 11 || b0 == 12 || b0 == 13 || b0 == 32 {
        return 1;
    }
    if end - i >= 2 {
        let b1 = bytes[i + 1];
        if b0 == 0xC2 && (b1 == 0x85 || b1 == 0xA0) {
            return 2;
        }
        if end - i >= 3 {
            let b2 = bytes[i + 2];
            if (b0 == 0xE1 && b1 == 0x9A && b2 == 0x80) || (b0 == 0xE2 && b1 == 0x80 && ((0x80 <= b2
                && b2 <= 0x8A) || b2 == 0xA8 || b2 == 0xA9 || b2 == 0xAF)) || (b0 == 0xE2 && b1 == 0x81
                && b2 == 0x9F) || (b0 == 0xE3 && b1 == 0x80 && b2 == 0x80) {
                return 3;
            }
        }
    }
    0
}

/// Whether `bytes[start..end]` holds only white space.
fn is_blank_range(bytes: &[u8], start: usize, end: usize) -> (blank: bool)
    requires
        start <= end <= bytes@.len(),
    ensures
        blank == is_blank(bytes@.subrange(start as int, end as int)),
{
    let ghost t = bytes@;
    let mut i = start;
    while i < end
        invariant
            start <= i <= end <= t.len(),
            t == bytes@,
            is_blank(t.subrange(start as int, end as int)) == is_blank(t.subrange(i as int, end as int)),
        decreases end - i,
    {
        let n = white_space_len_at(bytes, i, end);
        if n == 0 {
            return false;
        }
        proof {
            let s = t.subrange(i as int, end as int);
            assert(s.subrange(n as int, s.len() as int) =~= t.subrange(i + n, end as int));
        }
        i = i + n;
    }
    true
}

/// The records of a JSONL file: every line that is not blank, with its line number and the
/// byte range of its text, in file order.
pub fn jsonl_records(bytes: &[u8]) -> (records: Vec<JsonlRecord>)
    requires
        bytes@.len() < usize::MAX,
    ensures
        records@.map_values(|r: JsonlRecord| record_triple(r)) == jsonl_records_spec(bytes@),
{
    let ghost t = bytes@;
    let len = bytes.len();
    let mut records: Vec<JsonlRecord> = Vec::new();
    let mut start: usize = 0;
    let mut number: usize = 1;
    while start < len
        invariant
            t == bytes@,
            len == t.len(),
            len < usize::MAX,
            start <= len + 1,
            number <= start + 1,
            records@.map_values(|r: JsonlRecord| record_triple(r)) + records_from(t, start as int, number as int)
                == jsonl_records_spec(t),
        decreases len + 1 - start,
    {
        let mut end = start;
        while end < len && bytes[end] != 10
            invariant
                t == bytes@,
                len == t.len(),
                start <= end <= len,
                forall|k: int| start <= k < end ==> t[k] != 10,
            decreases len - end,
        {
            end = end + 1;
        }
        proof {
            lemma_line_end_skips(t, start as int, end as int);
            lemma_line_end_bounds(t, end as int);
            if end < len {
                assert(t[end as int] == 10);
            }
            assert(line_end(t, start as int) == end);
        }
        let text = if end < len && end > start && bytes[end - 1] == 13 { end - 1 } else { end };
        let blank = is_blank_range(bytes, start, text);
        let ghost before = records@.map_values(|r: JsonlRecord| record_triple(r));
        if !blank {
            let record = JsonlRecord { line_number: number, start, end: text };
            records.push(record);
            proof {
                assert(records@.map_values(|r: JsonlRecord| record_triple(r)) =~= before.push(
                    record_triple(record),
                ));
                assert(before.push(record_triple(record)) + records_from(t, end + 1, number + 1)
                    =~= before + (seq![(number as int, start as int, text as int)] + records_from(
                    t,
                    end + 1,
                    number + 1,
                )));
            }
        }
        start = end + 1;
        number = number + 1;
    }
    proof {
        assert(records_from(t, start as int, number as int) == Seq::<(int, int, int)>::empty());
        assert(records@.map_values(|r: JsonlRecord| record_triple(r)) + Seq::<(int, int, int)>::empty()
            =~= records@.map_values(|r: JsonlRecord| record_triple(r)));
    }
    records
}

} // verus!
