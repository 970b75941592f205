use intentrace::rank::{rank, Weighted};
use intentrace::report::{count_row, share_of, timed_row};
use intentrace::summary::{CountTable, TimedEntry, TimedTable};
use intentrace::syscall::{label, label_from_name};

fn strings(words: &[&str]) -> Vec<String> {
    words.iter().map(|word| word.to_string()).collect()
}

fn call(sysno: u64, weight: u64) -> Weighted {
    Weighted { sysno, weight }
}

#[test]
fn the_heaviest_call_ranks_first() {
    let ranked = rank(&vec![call(3, 10), call(1, 30), call(2, 20)]);
    assert_eq!(ranked, vec![call(1, 30), call(2, 20), call(3, 10)]);
}

#[test]
fn calls_of_the_same_weight_rank_by_number() {
    let ranked = rank(&vec![call(9, 5), call(2, 5), call(7, 8), call(4, 5), call(0, 1)]);
    assert_eq!(ranked, vec![call(7, 8), call(2, 5), call(4, 5), call(9, 5), call(0, 1)]);
}

#[test]
fn ranking_keeps_every_call() {
    assert_eq!(rank(&Vec::new()), Vec::new());
    assert_eq!(rank(&vec![call(1, 1)]), vec![call(1, 1)]);
    assert_eq!(rank(&vec![call(1, 1), call(1, 1)]), vec![call(1, 1), call(1, 1)]);
    let ranked = rank(&vec![call(5, 0), call(4, u64::MAX), call(3, 0)]);
    assert_eq!(ranked, vec![call(4, u64::MAX), call(3, 0), call(5, 0)]);
}

#[test]
fn ranking_does_not_depend_on_the_order_it_starts_from() {
    let one = rank(&vec![call(1, 7), call(2, 7), call(3, 9), call(4, 2)]);
    let other = rank(&vec![call(4, 2), call(3, 9), call(2, 7), call(1, 7)]);
    assert_eq!(one, other);
    assert_eq!(one, vec![call(3, 9), call(1, 7), call(2, 7), call(4, 2)]);
}

#[test]
fn shares_in_hundredths_of_a_percent() {
    assert_eq!(share_of(1, 1), 10000);
    assert_eq!(share_of(1, 2), 5000);
    assert_eq!(share_of(1, 3), 3333);
    assert_eq!(share_of(2, 3), 6667);
    assert_eq!(share_of(1, 8), 1250);
    assert_eq!(share_of(0, 5), 0);
    assert_eq!(share_of(6, 9), 6667);
    assert_eq!(share_of(2, 9), 2222);
    assert_eq!(share_of(1, 9), 1111);
}

#[test]
fn a_share_in_the_middle_goes_up() {
    assert_eq!(share_of(1, 20000), 1);
    assert_eq!(share_of(1, 20001), 0);
    assert_eq!(share_of(3, 20000), 2);
    assert_eq!(share_of(1, 80000), 0);
}

#[test]
fn no_time_at_all_gives_a_share_of_zero() {
    assert_eq!(share_of(0, 0), 0);
    assert_eq!(share_of(5, 0), 0);
}

#[test]
fn system_calls_are_called_by_their_names() {
    assert_eq!(label(0), "read");
    assert_eq!(label(1), "write");
    assert_eq!(label(9), "mmap");
    assert_eq!(label(11), "munmap");
    assert_eq!(label(12), "brk");
    assert_eq!(label(25), "mremap");
    assert_eq!(label(60), "exit");
    assert_eq!(label(231), "exit_group");
}

#[test]
fn a_number_without_a_system_call_is_called_by_its_number() {
    assert_eq!(label(400), "syscall_400");
    assert_eq!(label(100000), "syscall_100000");
    assert_eq!(label(u64::MAX), "syscall_18446744073709551615");
}

#[test]
fn a_label_from_a_name_that_was_looked_up() {
    assert_eq!(label_from_name(7, Some("poll".to_string())), "poll");
    assert_eq!(label_from_name(7, Some(String::new())), "");
    assert_eq!(label_from_name(7, None), "syscall_7");
    assert_eq!(label_from_name(0, None), "syscall_0");
}

#[test]
fn the_row_of_a_timed_call() {
    let entry = TimedEntry { count: 2, nanos: 6_000 };
    assert_eq!(timed_row(1, &entry, 9), strings(&["66.67", "0.000006", "3", "2", "write"]));
    let long = TimedEntry { count: 3, nanos: 2_500_000_999 };
    assert_eq!(
        timed_row(0, &long, 10_000_000),
        strings(&["25.00", "2.500000", "833333", "3", "read"])
    );
}

#[test]
fn the_row_of_a_call_that_took_no_time() {
    let entry = TimedEntry { count: 4, nanos: 999 };
    assert_eq!(timed_row(3, &entry, 0), strings(&["0.00", "0.000000", "0", "4", "close"]));
}

#[test]
fn the_row_of_an_entry_without_calls() {
    let entry = TimedEntry { count: 0, nanos: 5_000 };
    assert_eq!(timed_row(3, &entry, 5), strings(&["100.00", "0.000005", "0", "0", "close"]));
}

#[test]
fn the_row_of_a_counted_call() {
    assert_eq!(count_row(2, 17), strings(&["17", "open"]));
    assert_eq!(count_row(500000, 1), strings(&["1", "syscall_500000"]));
}

#[test]
fn one_call_takes_all_of_the_time() {
    let mut table = TimedTable::new();
    table.record(1, 5_000);
    assert_eq!(
        table.report_rows(),
        vec![
            strings(&["% time", "seconds", "usecs/call", "calls", "syscall"]),
            strings(&[""]),
            strings(&["100.00", "0.000005", "5", "1", "write"]),
        ]
    );
}

#[test]
fn timed_rows_stand_in_the_order_of_their_time() {
    let mut table = TimedTable::new();
    table.record(3, 1_999);
    table.record(1, 3_000);
    table.record(0, 2_000);
    table.record(1, 3_000);
    assert_eq!(
        table.report_rows(),
        vec![
            strings(&["% time", "seconds", "usecs/call", "calls", "syscall"]),
            strings(&[""]),
            strings(&["66.67", "0.000006", "3", "2", "write"]),
            strings(&["22.22", "0.000002", "2", "1", "read"]),
            strings(&["11.11", "0.000001", "1", "1", "close"]),
        ]
    );
}

#[test]
fn timed_rows_of_the_same_time_stand_in_the_order_of_their_numbers() {
    let mut table = TimedTable::new();
    for sysno in [39, 0, 12, 3, 1] {
        table.record(sysno, 1_000);
    }
    let rows = table.report_rows();
    let names: Vec<&str> = rows[2..].iter().map(|row| row[4].as_str()).collect();
    assert_eq!(names, vec!["read", "write", "close", "brk", "getpid"]);
    for row in &rows[2..] {
        assert_eq!(row[0], "20.00");
    }
}

#[test]
fn the_time_is_ranked_by_the_nanosecond() {
    let mut table = TimedTable::new();
    table.record(0, 1_500);
    table.record(1, 1_501);
    let rows = table.report_rows();
    assert_eq!(rows[2], strings(&["50.00", "0.000001", "1", "1", "write"]));
    assert_eq!(rows[3], strings(&["50.00", "0.000001", "1", "1", "read"]));
}

#[test]
fn a_session_without_time_has_shares_of_zero() {
    let mut table = TimedTable::new();
    table.record(0, 0);
    table.record(1, 999);
    assert_eq!(
        table.report_rows(),
        vec![
            strings(&["% time", "seconds", "usecs/call", "calls", "syscall"]),
            strings(&[""]),
            strings(&["0.00", "0.000000", "0", "1", "write"]),
            strings(&["0.00", "0.000000", "0", "1", "read"]),
        ]
    );
}

#[test]
fn an_empty_timed_table_has_only_headings() {
    assert_eq!(
        TimedTable::new().report_rows(),
        vec![strings(&["% time", "seconds", "usecs/call", "calls", "syscall"]), strings(&[""])]
    );
}

#[test]
fn counted_rows_stand_in_the_order_of_their_counts() {
    let mut table = CountTable::new();
    for sysno in [1, 0, 1, 3, 1, 0, 257] {
        table.record(sysno);
    }
    assert_eq!(
        table.report_rows(),
        vec![
            strings(&["calls", "syscall"]),
            strings(&[""]),
            strings(&["3", "write"]),
            strings(&["2", "read"]),
            strings(&["1", "close"]),
            strings(&["1", "openat"]),
        ]
    );
}

#[test]
fn an_empty_count_table_has_only_headings() {
    assert_eq!(CountTable::new().report_rows(), vec![strings(&["calls", "syscall"]), strings(&[""])]);
}

#[test]
fn the_timed_summary_as_text() {
    let mut table = TimedTable::new();
    table.record(1, 5_000);
    let expected = "\
.--------------------------------------------------.
| % time | seconds  | usecs/call | calls | syscall |
|        |          |            |       |         |
| 100.00 | 0.000005 | 5          | 1     | write   |
'--------------------------------------------------'";
    assert_eq!(table.report(), expected);
}

#[test]
fn the_counted_summary_as_text() {
    let mut table = CountTable::new();
    table.record(0);
    table.record(231);
    table.record(0);
    let expected = "\
.--------------------.
| calls | syscall    |
|       |            |
| 2     | read       |
| 1     | exit_group |
'--------------------'";
    assert_eq!(table.report(), expected);
}

#[test]
fn the_summary_of_an_empty_table_as_text() {
    let expected = "\
.-------------------------------------------------.
| % time | seconds | usecs/call | calls | syscall |
|        |         |            |       |         |
'-------------------------------------------------'";
    assert_eq!(TimedTable::new().report(), expected);
}

#[test]
fn reporting_twice_gives_the_same_text() {
    let mut timed = TimedTable::new();
    let mut counted = CountTable::new();
    for sysno in 0..40u64 {
        timed.record(sysno, 1_000 * (sysno % 7));
        counted.record(sysno % 11);
    }
    assert_eq!(timed.report(), timed.report());
    assert_eq!(timed.report_rows(), timed.report_rows());
    assert_eq!(counted.report(), counted.report());
    assert_eq!(counted.report_rows(), counted.report_rows());
}

#[test]
fn tables_with_the_same_records_give_the_same_summary() {
    let records: Vec<(u64, u64)> = (0..60u64).map(|i| (i % 13, 500 * (i % 5))).collect();
    let mut forwards = TimedTable::new();
    for (sysno, elapsed) in records.iter() {
        forwards.record(*sysno, *elapsed);
    }
    let mut backwards = TimedTable::new();
    for (sysno, elapsed) in records.iter().rev() {
        backwards.record(*sysno, *elapsed);
    }
    assert_eq!(forwards.report(), backwards.report());
}
