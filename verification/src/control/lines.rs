//! The lines of a journal file.

use crate::json::{body_content, content_of};
use vstd::prelude::*;
use vstd::slice::slice_subrange;

verus! {

/// The position of the next line end at or after `from`.
pub open spec fn next_line_end(bytes: Seq<u8>, from: int) -> Option<int>
    decreases bytes.len() - from,
{
    if from < 0 || from >= bytes.len() {
        None
    } else if bytes[from] == 10 {
        Some(from)
    } else {
        next_line_end(bytes, from + 1)
    }
}

proof fn lemma_line_end_is_ahead(bytes: Seq<u8>, from: int)
    ensures
        next_line_end(bytes, from) matches Some(end) ==> from <= end < bytes.len(),
    decreases bytes.len() - from,
{
    if 0 <= from < bytes.len() && bytes[from] != 10 {
        lemma_line_end_is_ahead(bytes, from + 1);
    }
}

/// The spans of the lines that are ended and not empty, from a position on.
pub open spec fn ended_lines(bytes: Seq<u8>, from: int) -> Seq<(int, int)>
    decreases bytes.len() - from,
    via ended_lines_decreases
{
    match next_line_end(bytes, from) {
        None => Seq::empty(),
        Some(end) => if end == from {
            ended_lines(bytes, end + 1)
        } else {
            seq![(from, end)] + ended_lines(bytes, end + 1)
        },
    }
}

#[via_fn]
proof fn ended_lines_decreases(bytes: Seq<u8>, from: int) {
    lemma_line_end_is_ahead(bytes, from);
}

/// Where the line begins that is not ended.
pub open spec fn open_line_start(bytes: Seq<u8>, from: int) -> int
    decreases bytes.len() - from,
    via open_line_decreases
{
    match next_line_end(bytes, from) {
        None => from,
        Some(end) => open_line_start(bytes, end + 1),
    }
}

#[via_fn]
proof fn open_line_decreases(bytes: Seq<u8>, from: int) {
    lemma_line_end_is_ahead(bytes, from);
}

/// The lines of a journal file: those that are ended, and where the last one begins that is not.
/// A file that was cut off in the middle of a write has such a last line.
#[derive(Clone, Debug, PartialEq)]
pub struct JournalLines {
    pub ended: Vec<(usize, usize)>,
    pub open_from: usize,
}

/// The spans as numbers.
pub open spec fn spans(lines: Seq<(usize, usize)>) -> Seq<(int, int)> {
    Seq::new(lines.len(), |i: int| (lines[i].0 as int, lines[i].1 as int))
}

/// Splits a journal file into its lines.
pub fn journal_lines(bytes: &[u8]) -> (lines: JournalLines)
    ensures
        spans(lines.ended@) == ended_lines(bytes@, 0),
        lines.open_from == open_line_start(bytes@, 0),
        lines.open_from <= bytes@.len(),
{
    let mut ended: Vec<(usize, usize)> = Vec::new();
    let mut start: usize = 0;
    let mut cursor: usize = 0;
    assert(spans(ended@) + ended_lines(bytes@, 0) =~= ended_lines(bytes@, 0));
    while cursor < bytes.len()
        invariant
            start <= cursor <= bytes.len(),
            next_line_end(bytes@, start as int) == next_line_end(bytes@, cursor as int),
            spans(ended@) + ended_lines(bytes@, start as int) == ended_lines(bytes@, 0),
            open_line_start(bytes@, start as int) == open_line_start(bytes@, 0),
        decreases bytes.len() - cursor,
    {
        if bytes[cursor] == 10 {
            assert(next_line_end(bytes@, start as int) == Some(cursor as int));
            if cursor > start {
                let ghost before = spans(ended@);
                let ghost rest = ended_lines(bytes@, cursor + 1);
                ended.push((start, cursor));
                assert(spans(ended@) =~= before.push((start as int, cursor as int)));
                assert(spans(ended@) + rest =~= before + (seq![(start as int, cursor as int)]
                    + rest));
            }
            start = cursor + 1;
        }
        cursor += 1;
    }
    assert(next_line_end(bytes@, start as int) is None);
    assert(spans(ended@) + ended_lines(bytes@, start as int) =~= spans(ended@));
    JournalLines { ended, open_from: start }
}

/// How a journal file ends: with an ended line, with a record that only lacks its line end, or with
/// the part of a record that was written before the file was cut off.
#[derive(Clone, Copy, Debug, Eq, PartialEq, Structural)]
pub enum JournalTail {
    Closed,
    Whole,
    Torn,
}

/// How a journal file ends. A last line that is not ended is whole where it is JSON.
pub open spec fn tail_of(bytes: Seq<u8>) -> JournalTail {
    let start = open_line_start(bytes, 0);
    if start == bytes.len() {
        JournalTail::Closed
    } else if body_content(bytes.skip(start)) is Some {
        JournalTail::Whole
    } else {
        JournalTail::Torn
    }
}

/// Tells how a journal file ends.
pub fn journal_tail(bytes: &Vec<u8>) -> (tail: JournalTail)
    ensures
        tail == tail_of(bytes@),
{
    let start: usize = journal_lines(bytes.as_slice()).open_from;
    if start == bytes.len() {
        return JournalTail::Closed;
    }
    let mut open: Vec<u8> = Vec::new();
    open.extend_from_slice(slice_subrange(bytes.as_slice(), start, bytes.len()));
    assert(open@ =~= bytes@.skip(start as int));
    match content_of(&open) {
        Some(_) => JournalTail::Whole,
        None => JournalTail::Torn,
    }
}

/// What a journal file holds once its end is mended: a whole record gets its line end, and the
/// torn part of one is cut off.
pub open spec fn mended(bytes: Seq<u8>) -> Seq<u8> {
    match tail_of(bytes) {
        JournalTail::Closed => bytes,
        JournalTail::Whole => bytes.push(10),
        JournalTail::Torn => bytes.take(open_line_start(bytes, 0)),
    }
}

/// Mends the end of a journal file. `None` where there is nothing to mend.
pub fn mended_journal(bytes: &Vec<u8>) -> (journal: Option<Vec<u8>>)
    ensures
        journal is None <==> tail_of(bytes@) is Closed,
        journal matches Some(journal) ==> journal@ == mended(bytes@),
{
    match journal_tail(bytes) {
        JournalTail::Closed => None,
        JournalTail::Whole => {
            let mut journal: Vec<u8> = bytes.clone();
            journal.push(10);
            assert(journal@ =~= bytes@.push(10));
            Some(journal)
        },
        JournalTail::Torn => {
            let start: usize = journal_lines(bytes.as_slice()).open_from;
            let mut journal: Vec<u8> = Vec::new();
            journal.extend_from_slice(slice_subrange(bytes.as_slice(), 0, start));
            assert(journal@ =~= bytes@.take(start as int));
            Some(journal)
        },
    }
}

/// Within the part of a file that two files share, the line ends are the same.
proof fn lemma_line_end_in_part(bytes: Seq<u8>, part: Seq<u8>, from: int)
    requires
        0 <= from,
        part.len() <= bytes.len(),
        forall|i: int| 0 <= i < part.len() ==> bytes[i] == part[i],
    ensures
        match next_line_end(part, from) {
            Some(end) => next_line_end(bytes, from) == Some(end),
            None => from <= part.len() ==> next_line_end(bytes, from) == next_line_end(
                bytes,
                part.len() as int,
            ),
        },
    decreases part.len() - from,
{
    if from < part.len() && part[from] != 10 {
        lemma_line_end_in_part(bytes, part, from + 1);
    }
}

/// The line that is not ended begins within the file, and has no line end.
proof fn lemma_open_line(bytes: Seq<u8>, from: int)
    requires
        0 <= from <= bytes.len(),
    ensures
        from <= open_line_start(bytes, from) <= bytes.len(),
        next_line_end(bytes, open_line_start(bytes, from)) is None,
    decreases bytes.len() - from,
{
    lemma_line_end_is_ahead(bytes, from);
    if let Some(end) = next_line_end(bytes, from) {
        lemma_open_line(bytes, end + 1);
    }
}

/// A file whose open line is cut off keeps its ended lines.
proof fn lemma_cut_off(bytes: Seq<u8>, from: int)
    requires
        0 <= from <= bytes.len(),
    ensures
        ({
            let start = open_line_start(bytes, from);
            let part = bytes.take(start);
            open_line_start(part, from) == start && ended_lines(part, from) == ended_lines(
                bytes,
                from,
            )
        }),
    decreases bytes.len() - from,
{
    let start = open_line_start(bytes, from);
    let part = bytes.take(start);
    lemma_open_line(bytes, from);
    lemma_line_end_is_ahead(bytes, from);
    lemma_line_end_in_part(bytes, part, from);
    match next_line_end(bytes, from) {
        Some(end) => {
            lemma_open_line(bytes, end + 1);
            lemma_cut_off(bytes, end + 1);
            assert(next_line_end(part, from) == Some(end));
        },
        None => {
            assert(next_line_end(part, from) is None);
        },
    }
}

/// A file that gets a line end has its open line as the last ended one.
proof fn lemma_ended(bytes: Seq<u8>, from: int)
    requires
        0 <= from <= bytes.len(),
        open_line_start(bytes, from) < bytes.len(),
    ensures
        ({
            let start = open_line_start(bytes, from);
            let whole = bytes.push(10);
            open_line_start(whole, from) == whole.len() && ended_lines(whole, from) == ended_lines(
                bytes,
                from,
            ).push((start, bytes.len() as int))
        }),
    decreases bytes.len() - from,
{
    let start = open_line_start(bytes, from);
    let whole = bytes.push(10);
    lemma_open_line(bytes, from);
    lemma_line_end_is_ahead(bytes, from);
    lemma_line_end_in_part(whole, bytes, from);
    match next_line_end(bytes, from) {
        Some(end) => {
            lemma_ended(bytes, end + 1);
            assert(ended_lines(whole, from) =~= ended_lines(bytes, from).push(
                (start, bytes.len() as int),
            ));
        },
        None => {
            let end = bytes.len() as int;
            assert(next_line_end(whole, from) == Some(end));
            assert(next_line_end(whole, end + 1) is None);
            assert(open_line_start(whole, end + 1) == end + 1);
            assert(ended_lines(whole, end + 1) =~= Seq::empty());
            assert(ended_lines(whole, from) =~= ended_lines(bytes, from).push((start, end)));
        },
    }
}

/// A mended journal is closed, and holds the lines that were ended before and, where the last
/// record was whole, that record as its last line. No line that was ended is lost, and mending
/// again changes nothing.
pub proof fn mended_journal_is_closed(bytes: Seq<u8>)
    ensures
        tail_of(mended(bytes)) is Closed,
        mended(mended(bytes)) == mended(bytes),
        ended_lines(mended(bytes), 0) == if tail_of(bytes) is Whole {
            ended_lines(bytes, 0).push((open_line_start(bytes, 0), bytes.len() as int))
        } else {
            ended_lines(bytes, 0)
        },
        forall|i: int|
            0 <= i < open_line_start(bytes, 0) ==> i < mended(bytes).len() && mended(bytes)[i]
                == bytes[i],
{
    lemma_open_line(bytes, 0);
    match tail_of(bytes) {
        JournalTail::Closed => {},
        JournalTail::Whole => {
            lemma_ended(bytes, 0);
        },
        JournalTail::Torn => {
            lemma_cut_off(bytes, 0);
        },
    }
}

} // verus!
