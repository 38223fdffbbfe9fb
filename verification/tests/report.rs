use vps_toolkit::cell::CellOutcome;
use vps_toolkit::errors::BenchError;
use vps_toolkit::matrix::RunMatrix;
use vps_toolkit::metrics::{DerivedMetrics, Rate};
use vps_toolkit::report::{
    cache_label, mode_label, render_cell, render_header, render_row, render_rule, render_table,
    row_label, size_label, table_heading, CELL_WIDTH, LABEL_WIDTH, RATE_WIDTH,
};
use vps_toolkit::text::{decimal, fixed2, pad_left, pad_right};
use vps_toolkit::workload::{MixRatio, Mode, OpenMode};

/// A cell with a throughput of `hundredths / 100` bytes a second and `tenths / 10`
/// operations a second.
fn measured_exactly(hundredths: u128, tenths: u128) -> CellOutcome {
    CellOutcome::Measured(DerivedMetrics {
        throughput_bytes_per_sec: Rate::new(hundredths, 100, 1).unwrap(),
        ops_per_sec: Rate::new(tenths, 10, 1).unwrap(),
    })
}

fn measured(throughput: u128, ops: u128) -> CellOutcome {
    measured_exactly(throughput * 100, ops * 10)
}

#[test]
fn decimal_writes_numbers_without_leading_zeros() {
    assert_eq!(decimal(0), "0");
    assert_eq!(decimal(7), "7");
    assert_eq!(decimal(10), "10");
    assert_eq!(decimal(1_048_576), "1048576");
    assert_eq!(decimal(u128::MAX), "340282366920938463463374607431768211455");
}

#[test]
fn fixed2_places_two_decimals() {
    assert_eq!(fixed2(0), "0.00");
    assert_eq!(fixed2(5), "0.05");
    assert_eq!(fixed2(50), "0.50");
    assert_eq!(fixed2(1234), "12.34");
    assert_eq!(fixed2(100_000), "1000.00");
}

#[test]
fn pad_left_right_aligns() {
    assert_eq!(pad_left("ab", 5), "   ab");
    assert_eq!(pad_left("abcde", 5), "abcde");
    assert_eq!(pad_left("abcdef", 5), "abcdef");
    assert_eq!(pad_left("", 3), "   ");
    assert_eq!(pad_left("x", 0), "x");
    // Width counts characters, not bytes.
    assert_eq!(pad_left("读写", 4), "  读写");
}

#[test]
fn pad_right_left_aligns() {
    assert_eq!(pad_right("ab", 5), "ab   ");
    assert_eq!(pad_right("abcde", 5), "abcde");
    assert_eq!(pad_right("abcdef", 5), "abcdef");
    assert_eq!(pad_right("", 3), "   ");
    assert_eq!(pad_right("x", 0), "x");
    assert_eq!(pad_right("读写", 4), "读写  ");
}

#[test]
fn widths() {
    assert_eq!(RATE_WIDTH, 7);
    assert_eq!(CELL_WIDTH, 21);
    assert_eq!(LABEL_WIDTH, 18);
}

#[test]
fn cell_shows_throughput_and_operation_rate() {
    assert_eq!(render_cell(&measured(1_048_576_000, 256_000)), "1000.00 MB/s,  256000");
    assert_eq!(render_cell(&measured(0, 0)), "   0.00 MB/s,       0");
    assert_eq!(render_cell(&measured(1_500_000, 366)), "   1.43 MB/s,     366");
    // Figures wider than the column push it out rather than lose digits.
    assert_eq!(
        render_cell(&measured(10_485_760_000_000, 123_456_789)),
        "10000000.00 MB/s, 123456789"
    );
}

#[test]
fn cell_rounds_both_rates_to_the_nearest() {
    // 187245.71 operations a second are shown as 187246.
    assert_eq!(render_cell(&measured_exactly(0, 1_872_457)), "   0.00 MB/s,  187246");
    assert_eq!(render_cell(&measured_exactly(0, 1_872_454)), "   0.00 MB/s,  187245");
    // 0.853 operations a second are shown as 1, not as 0.
    assert_eq!(render_cell(&measured_exactly(0, 9)), "   0.00 MB/s,       1");
    // 1.996 MiB/s are shown as 2.00.
    assert_eq!(render_cell(&measured_exactly(209_296_000, 0)), "   2.00 MB/s,       0");
    assert_eq!(render_cell(&measured_exactly(209_190_000, 0)), "   1.99 MB/s,       0");
}

#[test]
fn cell_of_a_computed_run() {
    let totals = vps_toolkit::aggregate::AggregateResult {
        bytes_read: 0,
        bytes_written: 268_435_456,
        read_ns: 0,
        write_ns: 1_433_600_000,
    };
    // 256 MiB in 1.4336 s: 178.57 MiB/s, 45714.29 operations of 4 KiB a second.
    let m = DerivedMetrics::compute(&totals, 4096);
    assert_eq!(render_cell(&CellOutcome::Measured(m)), " 178.57 MB/s,   45714");
    let expected = format!(
        "{:>7.2} MB/s, {:>7.0}",
        268_435_456.0 / 1.4336 / 1024.0 / 1024.0,
        268_435_456.0 / 4096.0 / 1.4336
    );
    assert_eq!(render_cell(&CellOutcome::Measured(m)), expected);
}

#[test]
fn failed_cell_shows_its_marker() {
    assert_eq!(render_cell(&CellOutcome::Failed(BenchError::Io)), "               ERR:io");
    assert_eq!(render_cell(&CellOutcome::Failed(BenchError::Provision)), "        ERR:provision");
    assert_eq!(render_cell(&CellOutcome::Failed(BenchError::Open)), "             ERR:open");
}

#[test]
fn row_is_named_by_its_pattern_and_joins_its_cells() {
    let row = vec![measured(1_048_576_000, 256_000), CellOutcome::Failed(BenchError::Io)];
    assert_eq!(
        render_row("顺序读", &row),
        "顺序读               | 1000.00 MB/s,  256000 |                ERR:io |"
    );
    assert_eq!(render_row("", &Vec::new()), "                  |");
    assert_eq!(render_row("a label longer than the column", &Vec::new()), "a label longer than the column|");
}

#[test]
fn size_labels_use_the_largest_unit_that_divides() {
    assert_eq!(size_label(4096), "4k");
    assert_eq!(size_label(65_536), "64k");
    assert_eq!(size_label(524_288), "512k");
    assert_eq!(size_label(1_048_576), "1m");
    assert_eq!(size_label(3 * 1_048_576), "3m");
    assert_eq!(size_label(1000), "1000");
    assert_eq!(size_label(1536), "1536");
    assert_eq!(size_label(0), "0");
}

#[test]
fn header_names_the_columns() {
    assert_eq!(
        render_header(&vec![4096, 1_048_576]),
        "Block Size        |       4k (MB/s, IOPS) |       1m (MB/s, IOPS) |"
    );
    assert_eq!(render_header(&Vec::new()), "Block Size        |");
}

#[test]
fn header_rule_and_row_line_up() {
    let sizes = vec![4096usize, 65_536, 524_288, 1_048_576];
    let row: Vec<CellOutcome> = (0..4u128).map(|i| measured(i * 1_000_000, i)).collect();
    let header = render_header(&sizes);
    let rule = render_rule(4);
    let result = render_row("随机写", &row);
    assert_eq!(header.chars().count(), 19 + 4 * 24);
    assert_eq!(rule.chars().count(), header.chars().count());
    assert_eq!(result.chars().count(), header.chars().count());
    assert_eq!(render_rule(0), "------------------|");
    assert_eq!(render_rule(1), "------------------|-----------------------|");
}

#[test]
fn table_heading_names_the_cache_mode() {
    assert_eq!(table_heading(OpenMode::Buffered), "================ 缓存IO ================");
    assert_eq!(
        table_heading(OpenMode::Direct),
        "================ O_DIRECT(绕过缓存) ================"
    );
}

#[test]
fn row_labels() {
    assert_eq!(row_label(Mode::SeqRead, MixRatio::even()), "顺序读");
    assert_eq!(row_label(Mode::SeqWrite, MixRatio::even()), "顺序写");
    assert_eq!(row_label(Mode::RandRead, MixRatio::even()), "随机读");
    assert_eq!(row_label(Mode::RandWrite, MixRatio::even()), "随机写");
    assert_eq!(row_label(Mode::RandRW, MixRatio::even()), "混合读写(50%/50%)");
    assert_eq!(row_label(Mode::RandRW, MixRatio::new(1, 3).unwrap()), "混合读写(33%/67%)");
    assert_eq!(row_label(Mode::RandRW, MixRatio::new(0, 3).unwrap()), "混合读写(0%/100%)");
}

#[test]
fn labels() {
    assert_eq!(mode_label(Mode::RandRW), "混合读写");
    assert_eq!(mode_label(Mode::SeqRead), "顺序读");
    assert_eq!(cache_label(OpenMode::Buffered), "缓存IO");
    assert_eq!(cache_label(OpenMode::Direct), "O_DIRECT(绕过缓存)");
}

/// The outcomes of one table of the standard matrix: row `r`, column `c` holds
/// `r * 10 + c` operations a second; one cell has failed.
fn rows_of_a_table() -> Vec<Vec<CellOutcome>> {
    (0..5u128)
        .map(|r| {
            (0..4u128)
                .map(|c| {
                    if r == 2 && c == 1 {
                        CellOutcome::Failed(BenchError::Io)
                    } else {
                        measured((r * 10 + c) * 1_048_576, r * 10 + c)
                    }
                })
                .collect()
        })
        .collect()
}

#[test]
fn a_table_has_a_row_for_each_pattern_and_a_column_for_each_block_size() {
    let matrix = RunMatrix::standard();
    let table = render_table(&matrix, 1, &rows_of_a_table()).unwrap();
    let lines: Vec<&str> = table.lines().collect();
    assert_eq!(lines.len(), 3 + 5);
    assert_eq!(lines[0], "================ O_DIRECT(绕过缓存) ================");
    assert_eq!(
        lines[1],
        "Block Size        |       4k (MB/s, IOPS) |      64k (MB/s, IOPS) |     512k (MB/s, IOPS) |       1m (MB/s, IOPS) |"
    );
    assert_eq!(lines[2], render_rule(4));
    assert_eq!(
        lines[3],
        "顺序读               |    0.00 MB/s,       0 |    1.00 MB/s,       1 |    2.00 MB/s,       2 |    3.00 MB/s,       3 |"
    );
    assert_eq!(
        lines[5],
        "随机读               |   20.00 MB/s,      20 |                ERR:io |   22.00 MB/s,      22 |   23.00 MB/s,      23 |"
    );
    assert_eq!(
        lines[7],
        "混合读写(50%/50%)     |   40.00 MB/s,      40 |   41.00 MB/s,      41 |   42.00 MB/s,      42 |   43.00 MB/s,      43 |"
    );
    let labels: Vec<&str> = lines[3..].iter().map(|l| l.split('|').next().unwrap().trim_end()).collect();
    assert_eq!(labels, vec!["顺序读", "顺序写", "随机读", "随机写", "混合读写(50%/50%)"]);
    assert!(table.ends_with("|\n"));
    // The other cache mode gives the same table under its own heading.
    let buffered = render_table(&matrix, 0, &rows_of_a_table()).unwrap();
    assert!(buffered.starts_with("================ 缓存IO ================\n"));
    assert_eq!(buffered.lines().skip(1).collect::<Vec<_>>(), lines[1..].to_vec());
}

#[test]
fn a_table_is_written_only_where_it_fits_the_matrix() {
    let matrix = RunMatrix::standard();
    assert!(render_table(&matrix, 2, &rows_of_a_table()).is_none());
    let mut short = rows_of_a_table();
    short.pop();
    assert!(render_table(&matrix, 0, &short).is_none());
    let mut long = rows_of_a_table();
    long.push(Vec::new());
    assert!(render_table(&matrix, 0, &long).is_none());
    let mut broken = RunMatrix::standard();
    broken.mix = MixRatio { read_parts: 3, total_parts: 2 };
    assert!(render_table(&broken, 0, &rows_of_a_table()).is_none());
    // Rows may be ragged: each shows the cells it has.
    let mut ragged = rows_of_a_table();
    ragged[4].truncate(1);
    let table = render_table(&matrix, 0, &ragged).unwrap();
    assert_eq!(table.lines().last().unwrap(), "混合读写(50%/50%)     |   40.00 MB/s,      40 |");
    let mut empty = RunMatrix::standard();
    empty.modes = Vec::new();
    empty.block_sizes = Vec::new();
    assert_eq!(
        render_table(&empty, 0, &Vec::new()),
        Some("================ 缓存IO ================\nBlock Size        |\n------------------|\n".to_string())
    );
}
