//! The summary that ends a session: one row for each system call that was
//! recorded, the heaviest first, drawn as a table.
//!
//! A timed table weighs its calls by the time they took, an untimed one by
//! their number. Two calls of the same weight stand in the order of their
//! numbers, so a table has one summary and no other.

use crate::rank::{
    is_ranking, lemma_ranked_list_is_ranking, lemma_ranking_found, lemma_ranking_unique, lists,
    numbers, rank, ranking, Weighted,
};
use crate::summary::{count_weight, timed_weight, CountTable, Tally, TimedEntry, TimedTable};
use crate::syscall::{label, syscall_label};
use crate::text::{
    decimal, decimal_string, hundredths_string, hundredths_text, millionths_string,
    millionths_text, texts,
};
use vstd::prelude::*;
use vstd::string::*;

verus! {

/// The text of the table that `tabled` draws of `rows` in its style
/// `ascii_rounded`.
pub uninterp spec fn rounded_table(rows: Seq<Seq<Seq<char>>>) -> Seq<char>;

/// The texts of the cells of a table.
pub open spec fn cells(rows: Seq<Vec<String>>) -> Seq<Seq<Seq<char>>> {
    rows.map_values(|row: Vec<String>| texts(row@))
}

/// Draws a table that starts with a row of headings. The drawing is done
/// by `tabled`: `tabled::builder::Builder::from` takes the rows and fills
/// short ones up with empty cells, `Builder::build` makes a `Table` of
/// them, `Table::with` gives it the style `Style::ascii_rounded()`, and
/// `to_string` writes it out. What the text looks like is left to
/// `rounded_table`.
#[verifier::external_body]
fn draw_table(rows: &Vec<Vec<String>>) -> (text: String)
    requires
        rows@.len() > 0,
        rows@[0]@.len() > 0,
    ensures
        text@ == rounded_table(cells(rows@)),
{
    tabled::builder::Builder::from(rows.clone()).build().with(
        tabled::settings::Style::ascii_rounded(),
    ).to_string()
}

/// The column headings of a timed summary.
pub open spec fn timed_headings() -> Seq<Seq<char>> {
    seq!["% time"@, "seconds"@, "usecs/call"@, "calls"@, "syscall"@]
}

/// The column headings of an untimed summary.
pub open spec fn count_headings() -> Seq<Seq<char>> {
    seq!["calls"@, "syscall"@]
}

/// The row that parts the headings from the calls: one empty cell.
pub open spec fn blank_row() -> Seq<Seq<char>> {
    seq![""@]
}

/// Whole microseconds in `nanos` nanoseconds.
pub open spec fn micros_of(nanos: nat) -> nat {
    nanos / 1000
}

/// The microseconds that the calls of `calls` took, each system call's time
/// cut down to whole microseconds first.
pub open spec fn total_micros(table: Map<u64, Tally>, calls: Seq<u64>) -> nat
    decreases calls.len(),
{
    if calls.len() == 0 {
        0
    } else {
        total_micros(table, calls.drop_last()) + micros_of(table[calls.last()].nanos)
    }
}

/// `part` in hundredths of a percent of `total`, to the nearest hundredth
/// and up from the middle; 0 where `total` is 0.
pub open spec fn share_hundredths(part: nat, total: nat) -> nat {
    if total == 0 {
        0
    } else {
        (part * 20000 + total) / (2 * total)
    }
}

/// The mean of `micros` over `count` calls, in whole microseconds; 0 where
/// there was no call.
pub open spec fn mean_micros(micros: nat, count: nat) -> nat {
    if count == 0 {
        0
    } else {
        micros / count
    }
}

/// The row of a system call in a timed summary: its share of the time of
/// all calls in percent, its time in seconds, the microseconds of a call in
/// the mean, the number of its calls, and its name.
pub open spec fn timed_cells(sysno: u64, tally: Tally, total: nat) -> Seq<Seq<char>> {
    seq![
        hundredths_text(share_hundredths(micros_of(tally.nanos), total)),
        millionths_text(micros_of(tally.nanos)),
        decimal(mean_micros(micros_of(tally.nanos), tally.count)),
        decimal(tally.count),
        syscall_label(sysno),
    ]
}

/// The row of a system call in an untimed summary: the number of its calls,
/// and its name.
pub open spec fn count_cells(sysno: u64, count: nat) -> Seq<Seq<char>> {
    seq![decimal(count), syscall_label(sysno)]
}

/// The rows of system calls in the summary of a timed table whose calls
/// took `total` microseconds.
pub open spec fn timed_row_of(table: Map<u64, Tally>, total: nat) -> spec_fn(u64) -> Seq<
    Seq<char>,
> {
    |sysno: u64| timed_cells(sysno, table[sysno], total)
}

/// The rows of system calls in the summary of an untimed table.
pub open spec fn count_row_of(table: Map<u64, nat>) -> spec_fn(u64) -> Seq<Seq<char>> {
    |sysno: u64| count_cells(sysno, table[sysno])
}

/// The rows of the summary of a timed table whose system calls stand in
/// `order`.
pub open spec fn timed_rows_in(table: Map<u64, Tally>, order: Seq<u64>) -> Seq<Seq<Seq<char>>> {
    seq![timed_headings(), blank_row()] + order.map_values(
        timed_row_of(table, total_micros(table, order)),
    )
}

/// The rows of the summary of an untimed table whose system calls stand in
/// `order`.
pub open spec fn count_rows_in(table: Map<u64, nat>, order: Seq<u64>) -> Seq<Seq<Seq<char>>> {
    seq![count_headings(), blank_row()] + order.map_values(count_row_of(table))
}

/// The rows of the summary of a timed table: the headings, a blank row,
/// and the row of each system call, in the order of the ranking by time.
pub open spec fn timed_rows(table: Map<u64, Tally>) -> Seq<Seq<Seq<char>>> {
    timed_rows_in(table, ranking(table.dom(), timed_weight(table)))
}

/// The rows of the summary of an untimed table: the headings, a blank row,
/// and the row of each system call, in the order of the ranking by calls.
pub open spec fn count_rows(table: Map<u64, nat>) -> Seq<Seq<Seq<char>>> {
    count_rows_in(table, ranking(table.dom(), count_weight(table)))
}

/// The summary of a timed table.
pub open spec fn timed_report(table: Map<u64, Tally>) -> Seq<char> {
    rounded_table(timed_rows(table))
}

/// The summary of an untimed table.
pub open spec fn count_report(table: Map<u64, nat>) -> Seq<char> {
    rounded_table(count_rows(table))
}

/// A timed table that is not recorded into has one summary: however often
/// its calls are ranked, and in whatever order the table holds them, the
/// rows are those of `timed_rows`, and so is the text drawn from them.
pub proof fn lemma_timed_summary_repeats(table: Map<u64, Tally>, first: Seq<u64>, second: Seq<u64>)
    requires
        is_ranking(table.dom(), timed_weight(table), first),
        is_ranking(table.dom(), timed_weight(table), second),
    ensures
        timed_rows_in(table, first) == timed_rows_in(table, second),
        timed_rows_in(table, first) == timed_rows(table),
        rounded_table(timed_rows_in(table, first)) == timed_report(table),
{
    lemma_ranking_unique(table.dom(), timed_weight(table), first, second);
    lemma_ranking_found(table.dom(), timed_weight(table), first);
}

/// An untimed table that is not recorded into has one summary.
pub proof fn lemma_count_summary_repeats(table: Map<u64, nat>, first: Seq<u64>, second: Seq<u64>)
    requires
        is_ranking(table.dom(), count_weight(table), first),
        is_ranking(table.dom(), count_weight(table), second),
    ensures
        count_rows_in(table, first) == count_rows_in(table, second),
        count_rows_in(table, first) == count_rows(table),
        rounded_table(count_rows_in(table, first)) == count_report(table),
{
    lemma_ranking_unique(table.dom(), count_weight(table), first, second);
    lemma_ranking_found(table.dom(), count_weight(table), first);
}

/// The most microseconds that the calls of a table can take together.
pub const MAX_TOTAL_MICROS: u128 = 0x100_0000_0000_0000_0000_0000_0000_0000;

/// Computes `share_hundredths`.
pub fn share_of(part: u64, total: u128) -> (share: u128)
    requires
        total <= MAX_TOTAL_MICROS,
    ensures
        share == share_hundredths(part as nat, total as nat),
{
    if total == 0 {
        0
    } else {
        (part as u128 * 20000 + total) / (2 * total)
    }
}

fn one_row(cell: &str) -> (row: Vec<String>)
    ensures
        texts(row@) == seq![cell@],
{
    let mut row: Vec<String> = Vec::new();
    row.push(String::from_str(cell));
    assert(texts(row@) =~= seq![cell@]);
    row
}

fn timed_heading_row() -> (row: Vec<String>)
    ensures
        texts(row@) == timed_headings(),
{
    let mut row: Vec<String> = Vec::new();
    row.push(String::from_str("% time"));
    row.push(String::from_str("seconds"));
    row.push(String::from_str("usecs/call"));
    row.push(String::from_str("calls"));
    row.push(String::from_str("syscall"));
    assert(texts(row@) =~= timed_headings());
    row
}

fn count_heading_row() -> (row: Vec<String>)
    ensures
        texts(row@) == count_headings(),
{
    let mut row: Vec<String> = Vec::new();
    row.push(String::from_str("calls"));
    row.push(String::from_str("syscall"));
    assert(texts(row@) =~= count_headings());
    row
}

/// Writes the row of a system call in a timed summary, where all calls
/// together took `total` microseconds.
pub fn timed_row(sysno: u64, entry: &TimedEntry, total: u128) -> (row: Vec<String>)
    requires
        total <= MAX_TOTAL_MICROS,
    ensures
        texts(row@) == timed_cells(sysno, entry.tally(), total as nat),
{
    let micros: u64 = entry.nanos / 1000;
    let mean: u64 = if entry.count == 0 {
        0
    } else {
        micros / (entry.count as u64)
    };
    let mut row: Vec<String> = Vec::new();
    row.push(hundredths_string(share_of(micros, total)));
    row.push(millionths_string(micros as u128));
    row.push(decimal_string(mean as u128));
    row.push(decimal_string(entry.count as u128));
    row.push(label(sysno));
    assert(texts(row@) =~= timed_cells(sysno, entry.tally(), total as nat));
    row
}

/// Writes the row of a system call in an untimed summary.
pub fn count_row(sysno: u64, count: usize) -> (row: Vec<String>)
    ensures
        texts(row@) == count_cells(sysno, count as nat),
{
    let mut row: Vec<String> = Vec::new();
    row.push(decimal_string(count as u128));
    row.push(label(sysno));
    assert(texts(row@) =~= count_cells(sysno, count as nat));
    row
}

impl TimedTable {
    /// The system calls of the table in the order of the summary, each
    /// with the time its calls took.
    pub fn ranked(&self) -> (calls: Vec<Weighted>)
        ensures
            numbers(calls@) == ranking(self@.dom(), timed_weight(self@)),
            lists(self@.dom(), timed_weight(self@), calls@),
    {
        let listed: Vec<Weighted> = self.weighted();
        let calls: Vec<Weighted> = rank(&listed);
        proof {
            lemma_ranked_list_is_ranking(self@.dom(), timed_weight(self@), listed@, calls@);
        }
        calls
    }

    /// The rows of the summary: the headings, a blank row, and the calls.
    pub fn report_rows(&self) -> (rows: Vec<Vec<String>>)
        ensures
            cells(rows@) == timed_rows(self@),
    {
        let calls: Vec<Weighted> = self.ranked();
        let ghost table = self@;
        let ghost order = numbers(calls@);
        let mut total: u128 = 0;
        let mut i: usize = 0;
        assert(order.take(0) =~= Seq::<u64>::empty());
        while i < calls.len()
            invariant
                i <= calls.len(),
                order == numbers(calls@),
                lists(table.dom(), timed_weight(table), calls@),
                total == total_micros(table, order.take(i as int)),
                total <= i * 0x80_0000_0000_0000,
            decreases calls.len() - i,
        {
            assert(order.take(i + 1).drop_last() =~= order.take(i as int));
            assert(table[order[i as int]].nanos == calls[i as int].weight);
            total = total + (calls[i].weight / 1000) as u128;
            i += 1;
        }
        assert(order.take(i as int) =~= order);
        let mut rows: Vec<Vec<String>> = Vec::new();
        rows.push(timed_heading_row());
        rows.push(one_row(""));
        let mut i: usize = 0;
        let ghost row_of = timed_row_of(table, total as nat);
        assert(cells(rows@) =~= seq![timed_headings(), blank_row()] + order.take(0).map_values(
            row_of,
        ));
        while i < calls.len()
            invariant
                i <= calls.len(),
                table == self@,
                order == numbers(calls@),
                row_of == timed_row_of(table, total as nat),
                lists(table.dom(), timed_weight(table), calls@),
                total <= MAX_TOTAL_MICROS,
                cells(rows@) == seq![timed_headings(), blank_row()] + order.take(
                    i as int,
                ).map_values(row_of),
            decreases calls.len() - i,
        {
            let sysno: u64 = calls[i].sysno;
            assert(table.dom().contains(calls[i as int].sysno));
            let row: Vec<String> = match self.get(sysno) {
                Some(entry) => timed_row(sysno, &entry, total),
                None => unreached(),
            };
            let ghost before = rows@;
            rows.push(row);
            proof {
                assert(texts(row@) == row_of(order[i as int]));
                assert(order.take(i + 1) =~= order.take(i as int).push(order[i as int]));
                assert(order.take(i + 1).map_values(row_of) =~= order.take(i as int).map_values(
                    row_of,
                ).push(row_of(order[i as int])));
                assert(cells(rows@) =~= cells(before).push(texts(row@)));
            }
            i += 1;
        }
        assert(order.take(i as int) =~= order);
        rows
    }

    /// The summary as text.
    pub fn report(&self) -> (text: String)
        ensures
            text@ == timed_report(self@),
    {
        let rows: Vec<Vec<String>> = self.report_rows();
        proof {
            let order = ranking(self@.dom(), timed_weight(self@));
            let listed = order.map_values(timed_row_of(self@, total_micros(self@, order)));
            assert((seq![timed_headings(), blank_row()] + listed)[0] == timed_headings());
            assert(cells(rows@).len() == rows@.len());
            assert(cells(rows@)[0] == texts(rows@[0]@));
            assert(texts(rows@[0]@).len() == rows@[0]@.len());
        }
        draw_table(&rows)
    }
}

impl CountTable {
    /// The system calls of the table in the order of the summary, each
    /// with the number of its calls.
    pub fn ranked(&self) -> (calls: Vec<Weighted>)
        ensures
            numbers(calls@) == ranking(self@.dom(), count_weight(self@)),
            lists(self@.dom(), count_weight(self@), calls@),
    {
        let listed: Vec<Weighted> = self.weighted();
        let calls: Vec<Weighted> = rank(&listed);
        proof {
            lemma_ranked_list_is_ranking(self@.dom(), count_weight(self@), listed@, calls@);
        }
        calls
    }

    /// The rows of the summary: the headings, a blank row, and the calls.
    pub fn report_rows(&self) -> (rows: Vec<Vec<String>>)
        ensures
            cells(rows@) == count_rows(self@),
    {
        let calls: Vec<Weighted> = self.ranked();
        let ghost table = self@;
        let ghost order = numbers(calls@);
        let mut rows: Vec<Vec<String>> = Vec::new();
        rows.push(count_heading_row());
        rows.push(one_row(""));
        let mut i: usize = 0;
        let ghost row_of = count_row_of(table);
        assert(cells(rows@) =~= seq![count_headings(), blank_row()] + order.take(0).map_values(
            row_of,
        ));
        while i < calls.len()
            invariant
                i <= calls.len(),
                table == self@,
                order == numbers(calls@),
                row_of == count_row_of(table),
                lists(table.dom(), count_weight(table), calls@),
                cells(rows@) == seq![count_headings(), blank_row()] + order.take(
                    i as int,
                ).map_values(row_of),
            decreases calls.len() - i,
        {
            let sysno: u64 = calls[i].sysno;
            assert(table.dom().contains(calls[i as int].sysno));
            let row: Vec<String> = match self.get(sysno) {
                Some(count) => count_row(sysno, count),
                None => unreached(),
            };
            let ghost before = rows@;
            rows.push(row);
            proof {
                assert(texts(row@) == row_of(order[i as int]));
                assert(order.take(i + 1) =~= order.take(i as int).push(order[i as int]));
                assert(order.take(i + 1).map_values(row_of) =~= order.take(i as int).map_values(
                    row_of,
                ).push(row_of(order[i as int])));
                assert(cells(rows@) =~= cells(before).push(texts(row@)));
            }
            i += 1;
        }
        assert(order.take(i as int) =~= order);
        rows
    }

    /// The summary as text.
    pub fn report(&self) -> (text: String)
        ensures
            text@ == count_report(self@),
    {
        let rows: Vec<Vec<String>> = self.report_rows();
        proof {
            let listed = ranking(self@.dom(), count_weight(self@)).map_values(count_row_of(self@));
            assert((seq![count_headings(), blank_row()] + listed)[0] == count_headings());
            assert(cells(rows@).len() == rows@.len());
            assert(cells(rows@)[0] == texts(rows@[0]@));
            assert(texts(rows@[0]@).len() == rows@[0]@.len());
        }
        draw_table(&rows)
    }
}

} // verus!
