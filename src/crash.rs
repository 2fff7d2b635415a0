//! Diagnostics after a crash: the newest crash report, cut to a bounded
//! size, or else the tail of the game's log. Texts are handled as bytes.

use vstd::prelude::*;
use vstd::string::*;
use vstd::utf8::*;
use crate::text::{ends_with, has_suffix};

verus! {

/// At most this many bytes of a crash report are shown.
pub const REPORT_LIMIT: usize = 5000;

/// At most this many lines of the log are shown.
pub const LOG_TAIL_LINES: usize = 100;

/// The note appended to a report that was cut.
pub open spec fn cut_note() -> Seq<u8> {
    encode_utf8("...\n[Лог обрезан]"@)
}

/// A crash report file: a `.txt` name with a stem before the extension.
pub open spec fn is_report_name(name: Seq<char>) -> bool {
    name.len() > 4 && has_suffix(name, ".txt"@)
}

/// Index of the newest report: the first of the latest modification time
/// among the report files.
pub open spec fn is_latest_report(files: Seq<(u128, Seq<char>)>, k: int) -> bool {
    &&& 0 <= k < files.len()
    &&& is_report_name(files[k].1)
    &&& forall|j: int| 0 <= j < files.len() && is_report_name(files[j].1) ==> files[j].0 <= files[k].0
    &&& forall|j: int| 0 <= j < k && is_report_name(files[j].1) ==> files[j].0 < files[k].0
}

/// Picks the newest crash report among the directory's files, given as
/// (modification time, name).
pub fn latest_report(files: &Vec<(u128, String)>) -> (r: Option<usize>)
    ensures
        r matches Some(k) ==> is_latest_report(files@.map_values(|f: (u128, String)| (f.0, f.1@)), k as int),
        r is None ==> forall|j: int| 0 <= j < files@.len() ==> !is_report_name(#[trigger] files@[j].1@),
{
    let ghost fs = files@.map_values(|f: (u128, String)| (f.0, f.1@));
    let mut best: Option<usize> = None;
    let mut i: usize = 0;
    while i < files.len()
        invariant
            i <= files@.len(),
            fs == files@.map_values(|f: (u128, String)| (f.0, f.1@)),
            best matches Some(k) ==> k < i && is_report_name(fs[k as int].1) && (forall|j: int|
                0 <= j < i && is_report_name(fs[j].1) ==> fs[j].0 <= fs[k as int].0) && (forall|j: int|
                0 <= j < k && is_report_name(fs[j].1) ==> fs[j].0 < fs[k as int].0),
            best is None ==> forall|j: int| 0 <= j < i ==> !is_report_name(#[trigger] fs[j].1),
        decreases files@.len() - i,
    {
        let name = files[i].1.as_str();
        if name.unicode_len() > 4 && ends_with(name, ".txt") {
            let better = match best {
                None => true,
                Some(k) => files[i].0 > files[k].0,
            };
            if better {
                best = Some(i);
            }
        }
        i = i + 1;
    }
    proof {
        if best is None {
            assert forall|j: int| 0 <= j < files@.len() implies !is_report_name(#[trigger] files@[j].1@) by {
                assert(fs[j].1 == files@[j].1@);
            }
        }
    }
    best
}

/// A report as shown: whole when it fits the limit, else its first bytes
/// followed by a note.
pub open spec fn report_excerpt(report: Seq<u8>) -> Seq<u8> {
    if report.len() <= REPORT_LIMIT {
        report
    } else {
        report.subrange(0, REPORT_LIMIT as int) + cut_note()
    }
}

/// Cuts a crash report to the shown size.
pub fn crash_excerpt(report: &[u8]) -> (r: Vec<u8>)
    ensures
        r@ == report_excerpt(report@),
{
    let mut out: Vec<u8> = Vec::new();
    let n = if report.len() <= REPORT_LIMIT { report.len() } else { REPORT_LIMIT };
    let mut i: usize = 0;
    while i < n
        invariant
            i <= n <= report@.len(),
            n == (if report@.len() <= REPORT_LIMIT { report@.len() } else { REPORT_LIMIT as nat }),
            out@ == report@.subrange(0, i as int),
        decreases n - i,
    {
        out.push(report[i]);
        i = i + 1;
        assert(out@ =~= report@.subrange(0, i as int));
    }
    if report.len() > REPORT_LIMIT {
        let note = "...\n[Лог обрезан]";
        out.extend_from_slice(note.as_bytes());
        assert(out@ =~= report_excerpt(report@));
    } else {
        assert(report@.subrange(0, n as int) =~= report@);
    }
    out
}

/// The pieces of a text between newline bytes.
pub open spec fn pieces(s: Seq<u8>) -> Seq<Seq<u8>>
    decreases s.len(),
{
    if s.len() == 0 {
        seq![Seq::empty()]
    } else {
        let p = pieces(s.drop_last());
        if s.last() == 0x0a {
            p.push(Seq::empty())
        } else {
            p.update(p.len() - 1, p.last().push(s.last()))
        }
    }
}

/// A line ended by a newline loses the carriage return before it.
pub open spec fn strip_cr(l: Seq<u8>) -> Seq<u8> {
    if l.len() > 0 && l.last() == 0x0d {
        l.drop_last()
    } else {
        l
    }
}

/// The lines of a text: every newline ends one, a final newline adds no
/// empty line, and carriage returns before newlines are dropped.
pub open spec fn lines(s: Seq<u8>) -> Seq<Seq<u8>> {
    let p = pieces(s);
    let ended = p.drop_last().map_values(|l: Seq<u8>| strip_cr(l));
    if p.last().len() == 0 {
        ended
    } else {
        ended.push(p.last())
    }
}

/// The last `n` elements, or all of them.
pub open spec fn last_n(ls: Seq<Seq<u8>>, n: nat) -> Seq<Seq<u8>> {
    if ls.len() <= n {
        ls
    } else {
        ls.subrange(ls.len() - n, ls.len() as int)
    }
}

/// The lines joined by newlines.
pub open spec fn join_lines(ls: Seq<Seq<u8>>) -> Seq<u8>
    decreases ls.len(),
{
    if ls.len() == 0 {
        Seq::empty()
    } else if ls.len() == 1 {
        ls[0]
    } else {
        join_lines(ls.drop_last()) + seq![0x0au8] + ls.last()
    }
}

proof fn lemma_pieces_nonempty(s: Seq<u8>)
    ensures
        pieces(s).len() >= 1,
    decreases s.len(),
{
    if s.len() > 0 {
        lemma_pieces_nonempty(s.drop_last());
    }
}

fn copy_range(data: &[u8], from: usize, to: usize) -> (r: Vec<u8>)
    requires
        from <= to <= data@.len(),
    ensures
        r@ == data@.subrange(from as int, to as int),
{
    let mut out: Vec<u8> = Vec::new();
    let mut i = from;
    while i < to
        invariant
            from <= i <= to <= data@.len(),
            out@ == data@.subrange(from as int, i as int),
        decreases to - i,
    {
        out.push(data[i]);
        i = i + 1;
        assert(out@ =~= data@.subrange(from as int, i as int));
    }
    out
}

fn ended_line(data: &[u8], from: usize, to: usize) -> (r: Vec<u8>)
    requires
        from <= to <= data@.len(),
    ensures
        r@ == strip_cr(data@.subrange(from as int, to as int)),
{
    if to > from && data[to - 1] == 0x0d {
        let r = copy_range(data, from, to - 1);
        assert(r@ =~= data@.subrange(from as int, to as int).drop_last());
        r
    } else {
        copy_range(data, from, to)
    }
}

pub open spec fn byte_views(v: Seq<Vec<u8>>) -> Seq<Seq<u8>> {
    v.map_values(|l: Vec<u8>| l@)
}

/// Splits a text into its lines.
pub fn split_lines(data: &[u8]) -> (r: Vec<Vec<u8>>)
    ensures
        byte_views(r@) == lines(data@),
{
    let mut done: Vec<Vec<u8>> = Vec::new();
    let mut start: usize = 0;
    let mut i: usize = 0;
    while i < data.len()
        invariant
            start <= i <= data@.len(),
            pieces(data@.take(i as int)).drop_last().map_values(|l: Seq<u8>| strip_cr(l))
                == byte_views(done@),
            pieces(data@.take(i as int)).last() == data@.subrange(start as int, i as int),
            pieces(data@.take(i as int)).len() >= 1,
        decreases data@.len() - i,
    {
        let ghost p = pieces(data@.take(i as int));
        assert(data@.take(i + 1).drop_last() =~= data@.take(i as int));
        if data[i] == 0x0a {
            let ghost before = done@;
            done.push(ended_line(data, start, i));
            start = i + 1;
            proof {
                let q = pieces(data@.take(i + 1));
                assert(q == p.push(Seq::empty()));
                assert(q.drop_last() =~= p);
                assert(p =~= p.drop_last().push(p.last()));
                assert(byte_views(done@) =~= byte_views(before).push(strip_cr(p.last())));
                assert(q.drop_last().map_values(|l: Seq<u8>| strip_cr(l)) =~= p.drop_last().map_values(
                    |l: Seq<u8>| strip_cr(l),
                ).push(strip_cr(p.last())));
            }
        } else {
            proof {
                let q = pieces(data@.take(i + 1));
                assert(q.drop_last() =~= p.drop_last());
                assert(q.last() =~= data@.subrange(start as int, i + 1));
            }
        }
        i = i + 1;
    }
    assert(data@.take(i as int) =~= data@);
    if start < data.len() {
        let ghost before = done@;
        done.push(copy_range(data, start, data.len()));
        assert(byte_views(done@) =~= byte_views(before).push(data@.subrange(start as int, data@.len() as int)));
    }
    done
}

/// The last `n` lines of a log, joined by newlines.
pub fn log_tail(log: &[u8], n: usize) -> (r: Vec<u8>)
    ensures
        r@ == join_lines(last_n(lines(log@), n as nat)),
{
    let all = split_lines(log);
    let from: usize = if all.len() <= n { 0 } else { all.len() - n };
    let ghost chosen = byte_views(all@).subrange(from as int, all@.len() as int);
    assert(chosen =~= last_n(lines(log@), n as nat));
    let mut out: Vec<u8> = Vec::new();
    let mut i = from;
    while i < all.len()
        invariant
            from <= i <= all@.len(),
            chosen == byte_views(all@).subrange(from as int, all@.len() as int),
            out@ == join_lines(chosen.take(i - from)),
        decreases all@.len() - i,
    {
        assert(chosen.take(i + 1 - from).drop_last() =~= chosen.take(i - from));
        if i > from {
            out.push(0x0a);
        }
        let mut line = all[i].clone();
        out.append(&mut line);
        i = i + 1;
        assert(out@ =~= join_lines(chosen.take(i - from)));
    }
    assert(chosen.take(i - from) =~= chosen);
    out
}

/// The diagnostic shown after a crash: the newest crash report cut to size
/// when there is one, else the tail of the game log when there is one.
pub fn crash_diagnostic(report: Option<&[u8]>, log: Option<&[u8]>) -> (r: Option<Vec<u8>>)
    ensures
        report matches Some(b) ==> (r matches Some(v) && v@ == report_excerpt(b@)),
        report is None ==> (log matches Some(l) ==> (r matches Some(v) && v@ == join_lines(
            last_n(lines(l@), LOG_TAIL_LINES as nat),
        ))),
        report is None && log is None ==> r is None,
{
    match report {
        Some(b) => Some(crash_excerpt(b)),
        None => match log {
            Some(l) => Some(log_tail(l, LOG_TAIL_LINES)),
            None => None,
        },
    }
}

} // verus!
