//! The snapshot log: one record per line, appended per poll, and replayed into the time series
//! of one identifier.

use vstd::prelude::*;
use crate::resolve::opt_view;
use crate::schema::MibObject;
use crate::value::Leaf;

verus! {

/// The point that a snapshot contributes to the series of `q`: its timestamp and the first value
/// of what `q` resolves to, widened to `i64`; none where `q` resolves to nothing, to a leaf that
/// is not numeric, or to one without values.
#[verifier::opaque]
pub open spec fn point_of(s: MibObject, q: Seq<u16>) -> Option<(i64, i64)> {
    match s.find_spec(q) {
        Some(l) => match l.values.as_i64s() {
            Some(v) => if v.len() > 0 { Some((s.timestamp, v[0])) } else { None },
            None => None,
        },
        None => None,
    }
}

/// The series of `q` over `snaps`: the points of the snapshots, in their order.
pub open spec fn series(snaps: Seq<MibObject>, q: Seq<u16>) -> Seq<(i64, i64)>
    decreases snaps.len(),
{
    if snaps.len() == 0 {
        seq![]
    } else {
        let p = series(snaps.drop_last(), q);
        match point_of(snaps.last(), q) {
            Some(pt) => p.push(pt),
            None => p,
        }
    }
}

/// The time series of `oid` over the snapshots, in their order; a snapshot in which `oid` does
/// not resolve to a numeric value contributes no point.
pub fn replay_series(snapshots: &Vec<MibObject>, oid: &Vec<u16>) -> (r: Vec<(i64, i64)>)
    ensures
        r@ == series(snapshots@, oid@),
{
    let mut r: Vec<(i64, i64)> = Vec::new();
    let mut i: usize = 0;
    while i < snapshots.len()
        invariant
            i <= snapshots.len(),
            r@ == series(snapshots@.subrange(0, i as int), oid@),
        decreases snapshots.len() - i,
    {
        let s = &snapshots[i];
        let ghost pre = snapshots@.subrange(0, i as int);
        let ghost post = snapshots@.subrange(0, i + 1);
        assert(post.drop_last() =~= pre);
        assert(post.last() == *s);
        proof {
            reveal(point_of);
        }
        let found = s.find_oid(oid.clone());
        match found {
            Some(v) => {
                match v.val_as_mvinti64() {
                    Some(vals) => {
                        if vals.len() > 0 {
                            r.push((s.timestamp, vals[0]));
                        }
                    },
                    None => {},
                }
            },
            None => {},
        }
        i += 1;
    }
    assert(snapshots@.subrange(0, snapshots@.len() as int) =~= snapshots@);
    r
}


proof fn lemma_point_stamp(s: MibObject, q: Seq<u16>)
    ensures
        point_of(s, q) matches Some(p) ==> p.0 == s.timestamp,
{
    reveal(point_of);
}

/// Every point of the series of `q` over `snaps` is stamped no later than `t`, when no snapshot is.
proof fn lemma_series_bounded(snaps: Seq<MibObject>, q: Seq<u16>, t: i64)
    requires
        forall|i: int| 0 <= i < snaps.len() ==> (#[trigger] snaps[i]).timestamp <= t,
    ensures
        forall|j: int| 0 <= j < series(snaps, q).len() ==> (#[trigger] series(snaps, q)[j]).0 <= t,
    decreases snaps.len(),
{
    if snaps.len() > 0 {
        let init = snaps.drop_last();
        assert forall|i: int| 0 <= i < init.len() implies (#[trigger] init[i]).timestamp <= t by {
            assert(init[i] == snaps[i]);
        }
        lemma_series_bounded(init, q, t);
        assert(snaps.last() == snaps[snaps.len() - 1]);
        lemma_point_stamp(snaps.last(), q);
        let p = series(init, q);
        match point_of(snaps.last(), q) {
            Some(pt) => {
                assert(series(snaps, q) == p.push(pt));
                assert forall|j: int| 0 <= j < series(snaps, q).len() implies (#[trigger] series(snaps, q)[j]).0 <= t by {
                    if j < p.len() {
                        assert(series(snaps, q)[j] == p[j]);
                    }
                }
            },
            None => {
                assert(series(snaps, q) == p);
            },
        }
    }
}

/// Replay keeps the log's order and drops only misses: over snapshots whose timestamps do not
/// decrease, the series of `q` has at most one point per snapshot, exactly one per snapshot when
/// `q` resolves to a numeric value in each, and its timestamps do not decrease.
pub proof fn lemma_replay_ordering(snaps: Seq<MibObject>, q: Seq<u16>)
    requires
        forall|i: int, j: int| 0 <= i <= j < snaps.len() ==> (#[trigger] snaps[i]).timestamp <= (#[trigger] snaps[j]).timestamp,
    ensures
        series(snaps, q).len() <= snaps.len(),
        (forall|i: int| 0 <= i < snaps.len() ==> point_of(#[trigger] snaps[i], q) is Some)
            ==> series(snaps, q).len() == snaps.len(),
        forall|i: int, j: int| 0 <= i <= j < series(snaps, q).len()
            ==> (#[trigger] series(snaps, q)[i]).0 <= (#[trigger] series(snaps, q)[j]).0,
    decreases snaps.len(),
{
    if snaps.len() > 0 {
        let init = snaps.drop_last();
        let last = snaps.last();
        assert forall|i: int, j: int| 0 <= i <= j < init.len() implies (#[trigger] init[i]).timestamp <= (#[trigger] init[j]).timestamp by {
            assert(init[i] == snaps[i] && init[j] == snaps[j]);
        }
        lemma_replay_ordering(init, q);
        assert forall|i: int| 0 <= i < init.len() implies (#[trigger] init[i]).timestamp <= last.timestamp by {
            assert(init[i] == snaps[i]);
            assert(last == snaps[snaps.len() - 1]);
        }
        lemma_series_bounded(init, q, last.timestamp);
        lemma_point_stamp(last, q);
        if forall|i: int| 0 <= i < snaps.len() ==> point_of(#[trigger] snaps[i], q) is Some {
            assert forall|i: int| 0 <= i < init.len() implies point_of(#[trigger] init[i], q) is Some by {
                assert(init[i] == snaps[i]);
            }
            assert(point_of(snaps[snaps.len() - 1], q) is Some);
        }
    }
}

/// Whether a byte is the line feed that ends a record.
pub open spec fn is_line_feed(b: u8) -> bool {
    b == 10
}

/// The lines of `text`: the pieces between line feeds, in order; there is always at least one.
pub open spec fn split_lines(text: Seq<u8>) -> Seq<Seq<u8>>
    decreases text.len(),
{
    if text.len() == 0 {
        seq![seq![]]
    } else {
        let p = split_lines(text.drop_last());
        if is_line_feed(text.last()) {
            p.push(seq![])
        } else {
            p.update(p.len() - 1, p.last().push(text.last()))
        }
    }
}

/// A line without the carriage return that may end it.
pub open spec fn strip_cr(l: Seq<u8>) -> Seq<u8> {
    if l.len() > 0 && l.last() == 13 { l.drop_last() } else { l }
}

/// The lines that hold a record: each line without its carriage return, blank ones left out.
pub open spec fn records_of(lines: Seq<Seq<u8>>) -> Seq<Seq<u8>>
    decreases lines.len(),
{
    if lines.len() == 0 {
        seq![]
    } else {
        let p = records_of(lines.drop_last());
        if strip_cr(lines.last()).len() > 0 { p.push(strip_cr(lines.last())) } else { p }
    }
}

/// The records of a log file's contents, one per non-blank line, in file order.
pub open spec fn log_records(text: Seq<u8>) -> Seq<Seq<u8>> {
    records_of(split_lines(text))
}

fn keep_record(out: &mut Vec<Vec<u8>>, line: Vec<u8>)
    ensures
        final(out)@.map_values(|l: Vec<u8>| l@) == (if strip_cr(line@).len() > 0 {
            old(out)@.map_values(|l: Vec<u8>| l@).push(strip_cr(line@))
        } else {
            old(out)@.map_values(|l: Vec<u8>| l@)
        }),
{
    let ghost given = line@;
    let mut line = line;
    if line.len() > 0 && line[line.len() - 1] == 13 {
        line.pop();
        assert(line@ =~= given.drop_last());
    }
    assert(line@ == strip_cr(given));
    if line.len() > 0 {
        out.push(line);
        assert(out@.map_values(|l: Vec<u8>| l@) =~= old(out)@.map_values(|l: Vec<u8>| l@).push(strip_cr(given)));
    }
}

/// The records of a log file's contents: its non-blank lines in order, each without its line
/// ending.
pub fn log_lines(text: &Vec<u8>) -> (r: Vec<Vec<u8>>)
    ensures
        r@.map_values(|l: Vec<u8>| l@) == log_records(text@),
{
    let mut out: Vec<Vec<u8>> = Vec::new();
    let mut cur: Vec<u8> = Vec::new();
    let ghost mut done: Seq<Seq<u8>> = seq![];
    let mut i: usize = 0;
    while i < text.len()
        invariant
            i <= text.len(),
            split_lines(text@.subrange(0, i as int)) == done.push(cur@),
            out@.map_values(|l: Vec<u8>| l@) == records_of(done),
        decreases text.len() - i,
    {
        let ghost pre = text@.subrange(0, i as int);
        let ghost post = text@.subrange(0, i + 1);
        assert(post.drop_last() =~= pre);
        assert(post.last() == text@[i as int]);
        if text[i] == 10 {
            let line = cur;
            cur = Vec::new();
            proof {
                let d2 = done.push(line@);
                assert(d2.drop_last() =~= done);
                done = d2;
            }
            keep_record(&mut out, line);
            assert(split_lines(post) =~= done.push(cur@));
        } else {
            cur.push(text[i]);
            assert(split_lines(post) =~= done.push(cur@));
        }
        i += 1;
    }
    let ghost d2 = done.push(cur@);
    assert(d2.drop_last() =~= done);
    keep_record(&mut out, cur);
    assert(text@.subrange(0, text@.len() as int) =~= text@);
    out
}

/// The log record of a serialized snapshot: its bytes followed by a line feed; `None` when the
/// bytes hold a line feed themselves, which would split the record.
pub fn frame_record(record: &Vec<u8>) -> (r: Option<Vec<u8>>)
    ensures
        r is Some <==> (forall|k: int| 0 <= k < record@.len() ==> !is_line_feed(#[trigger] record@[k])),
        r matches Some(f) ==> f@ == record@.push(10),
{
    let mut f: Vec<u8> = Vec::new();
    let mut i: usize = 0;
    while i < record.len()
        invariant
            i <= record.len(),
            f@ == record@.subrange(0, i as int),
            forall|k: int| 0 <= k < i ==> !is_line_feed(#[trigger] record@[k]),
        decreases record.len() - i,
    {
        if record[i] == 10 {
            return None;
        }
        f.push(record[i]);
        assert(f@ =~= record@.subrange(0, i + 1));
        i += 1;
    }
    f.push(10);
    assert(f@ =~= record@.push(10));
    Some(f)
}

proof fn lemma_split_lines_nonempty(text: Seq<u8>)
    ensures
        split_lines(text).len() >= 1,
    decreases text.len(),
{
    if text.len() > 0 {
        lemma_split_lines_nonempty(text.drop_last());
    }
}

/// Bytes without a line feed extend the last line.
proof fn lemma_split_lines_extend(text: Seq<u8>, r: Seq<u8>)
    requires
        forall|k: int| 0 <= k < r.len() ==> !is_line_feed(#[trigger] r[k]),
    ensures
        split_lines(text + r) == split_lines(text).drop_last().push(split_lines(text).last() + r),
    decreases r.len(),
{
    lemma_split_lines_nonempty(text);
    let lines = split_lines(text);
    if r.len() == 0 {
        assert(text + r =~= text);
        assert(lines.last() + r =~= lines.last());
        assert(lines.drop_last().push(lines.last()) =~= lines);
    } else {
        let r0 = r.drop_last();
        assert forall|k: int| 0 <= k < r0.len() implies !is_line_feed(#[trigger] r0[k]) by {
            assert(r0[k] == r[k]);
        }
        lemma_split_lines_extend(text, r0);
        assert((text + r).drop_last() =~= text + r0);
        assert((text + r).last() == r.last());
        assert(!is_line_feed(r[r.len() - 1]));
        let p = split_lines(text + r0);
        lemma_split_lines_nonempty(text + r0);
        assert(p.update(p.len() - 1, p.last().push(r.last()))
            =~= lines.drop_last().push(lines.last() + r)) by {
            assert((lines.last() + r0).push(r.last()) =~= lines.last() + r);
        }
    }
}

proof fn lemma_records_blank_last(lines: Seq<Seq<u8>>)
    ensures
        records_of(lines.push(seq![])) == records_of(lines),
{
    assert(lines.push(seq![]).drop_last() =~= lines);
}

/// Appending one framed record to a log that ends at a line boundary adds exactly that record to
/// what is replayed from it, after the records already there.
pub proof fn lemma_append_replays(text: Seq<u8>, record: Seq<u8>)
    requires
        text.len() == 0 || is_line_feed(text.last()),
        record.len() > 0,
        record.last() != 13,
        forall|k: int| 0 <= k < record.len() ==> !is_line_feed(#[trigger] record[k]),
    ensures
        log_records(text + record.push(10)) == log_records(text).push(record),
{
    let lines = split_lines(text);
    lemma_split_lines_nonempty(text);
    if text.len() > 0 {
        assert(lines == split_lines(text.drop_last()).push(seq![]));
    }
    assert(lines.last() == Seq::<u8>::empty());
    let init = lines.drop_last();
    assert(lines =~= init.push(seq![]));
    lemma_records_blank_last(init);
    lemma_split_lines_extend(text, record);
    assert(Seq::<u8>::empty() + record =~= record);
    let full = text + record.push(10);
    assert(full.drop_last() =~= text + record);
    assert(full.last() == 10);
    assert(split_lines(full) == init.push(record).push(seq![]));
    lemma_records_blank_last(init.push(record));
    assert(init.push(record).drop_last() =~= init);
    assert(strip_cr(record) == record);
}

/// The file name a target's log is kept under: `logs/MIB-log-`, the target with each `.` turned
/// into `-`, then `.log`.
pub open spec fn log_file_name_of(target: Seq<char>) -> Seq<char> {
    seq!['l', 'o', 'g', 's', '/', 'M', 'I', 'B', '-', 'l', 'o', 'g', '-']
        + target.map_values(|c: char| if c == '.' { '-' } else { c })
        + seq!['.', 'l', 'o', 'g']
}

/// The file name a target's log is kept under.
pub fn log_file_name(target: &str) -> (r: String)
    ensures
        r@ == log_file_name_of(target@),
{
    proof {
        reveal_strlit("logs/MIB-log-");
        reveal_strlit("-");
        reveal_strlit(".log");
    }
    let mut r = String::from_str("logs/MIB-log-");
    let n = target.unicode_len();
    let mut i: usize = 0;
    while i < n
        invariant
            n == target@.len(),
            i <= n,
            r@ == seq!['l', 'o', 'g', 's', '/', 'M', 'I', 'B', '-', 'l', 'o', 'g', '-']
                + target@.subrange(0, i as int).map_values(|c: char| if c == '.' { '-' } else { c }),
        decreases n - i,
    {
        let c = target.get_char(i);
        if c == '.' {
            proof {
                reveal_strlit("-");
            }
            r.append("-");
        } else {
            let piece = target.substring_char(i, i + 1);
            assert(piece@ =~= seq![c]);
            r.append(piece);
        }
        assert(target@.subrange(0, i + 1).map_values(|c: char| if c == '.' { '-' } else { c })
            =~= target@.subrange(0, i as int).map_values(|c: char| if c == '.' { '-' } else { c }).push(
            if c == '.' { '-' } else { c }));
        i += 1;
    }
    r.append(".log");
    assert(target@.subrange(0, n as int) =~= target@);
    r
}

} // verus!
