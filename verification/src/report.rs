//! The text of the result tables: one table per cache mode, one row per
//! pattern, one column per block size.

use crate::cell::CellOutcome;
use crate::matrix::RunMatrix;
use crate::text::{
    decimal, digits, fixed2, left_aligned, pad_left, pad_right, right_aligned, two_decimals,
};
use crate::workload::{MixRatio, Mode, OpenMode};
use vstd::prelude::*;
use vstd::string::StringExecFns;

verus! {

/// Width of a rate within a cell.
pub const RATE_WIDTH: usize = 7;

/// Width of the text of a cell: two rates and `" MB/s, "` between them.
pub const CELL_WIDTH: usize = 21;

/// Width of the column that names the rows.
pub const LABEL_WIDTH: usize = 18;

/// Name of each pattern.
pub open spec fn mode_text(mode: Mode) -> Seq<char> {
    match mode {
        Mode::SeqRead => "顺序读"@,
        Mode::SeqWrite => "顺序写"@,
        Mode::RandRead => "随机读"@,
        Mode::RandWrite => "随机写"@,
        Mode::RandRW => "混合读写"@,
    }
}

/// Name of each cache mode.
pub open spec fn cache_text(cache: OpenMode) -> Seq<char> {
    match cache {
        OpenMode::Buffered => "缓存IO"@,
        OpenMode::Direct => "O_DIRECT(绕过缓存)"@,
    }
}

/// Name of a pattern as the tables show it.
pub fn mode_label(mode: Mode) -> (r: &'static str)
    ensures
        r@ == mode_text(mode),
{
    match mode {
        Mode::SeqRead => "顺序读",
        Mode::SeqWrite => "顺序写",
        Mode::RandRead => "随机读",
        Mode::RandWrite => "随机写",
        Mode::RandRW => "混合读写",
    }
}

/// Name of a cache mode as the tables show it.
pub fn cache_label(cache: OpenMode) -> (r: &'static str)
    ensures
        r@ == cache_text(cache),
{
    match cache {
        OpenMode::Buffered => "缓存IO",
        OpenMode::Direct => "O_DIRECT(绕过缓存)",
    }
}

/// A block size in its shortest unit: `1m`, `64k`, or plain bytes.
pub open spec fn size_text(bytes: nat) -> Seq<char> {
    if bytes > 0 && bytes % 1_048_576 == 0 {
        digits(bytes / 1_048_576) + "m"@
    } else if bytes > 0 && bytes % 1024 == 0 {
        digits(bytes / 1024) + "k"@
    } else {
        digits(bytes)
    }
}

/// Writes a block size in its shortest unit.
pub fn size_label(bytes: usize) -> (r: String)
    ensures
        r@ == size_text(bytes as nat),
{
    if bytes > 0 && bytes % 1_048_576 == 0 {
        let mut s = decimal((bytes / 1_048_576) as u128);
        s.append("m");
        s
    } else if bytes > 0 && bytes % 1024 == 0 {
        let mut s = decimal((bytes / 1024) as u128);
        s.append("k");
        s
    } else {
        decimal(bytes as u128)
    }
}

/// Text of one cell: `"<throughput> MB/s, <ops/sec>"`, the throughput in
/// MiB with two decimals, the operation rate as a whole number, each
/// rounded to the nearest and right-aligned; for a failed cell the marker
/// of its failure.
pub open spec fn cell_text(outcome: CellOutcome) -> Seq<char> {
    match outcome {
        CellOutcome::Measured(m) => right_aligned(
            two_decimals(m.throughput_bytes_per_sec.centi_mib() as nat),
            RATE_WIDTH as nat,
        ) + " MB/s, "@ + right_aligned(digits(m.ops_per_sec.nearest() as nat), RATE_WIDTH as nat),
        CellOutcome::Failed(e) => right_aligned(e.marker_text(), CELL_WIDTH as nat),
    }
}

/// Writes the text of one cell.
pub fn render_cell(outcome: &CellOutcome) -> (r: String)
    ensures
        r@ == cell_text(*outcome),
{
    match outcome {
        CellOutcome::Measured(m) => {
            let rate = fixed2(m.throughput_bytes_per_sec.hundredths_of_mib());
            let mut s = pad_left(rate.as_str(), RATE_WIDTH);
            s.append(" MB/s, ");
            let ops = decimal(m.ops_per_sec.rounded());
            let padded = pad_left(ops.as_str(), RATE_WIDTH);
            s.append(padded.as_str());
            s
        },
        CellOutcome::Failed(e) => pad_left(e.marker(), CELL_WIDTH),
    }
}

/// The columns of a line, each as `" <text> |"`.
pub open spec fn columns_text(cells: Seq<Seq<char>>) -> Seq<char>
    decreases cells.len(),
{
    if cells.len() == 0 {
        Seq::empty()
    } else {
        columns_text(cells.drop_last()) + " "@ + cells.last() + " |"@
    }
}

/// The line of one row: the name of its pattern, then its cells.
pub open spec fn row_text(label: Seq<char>, outcomes: Seq<CellOutcome>) -> Seq<char> {
    left_aligned(label, LABEL_WIDTH as nat) + "|"@ + columns_text(
        outcomes.map_values(|o: CellOutcome| cell_text(o)),
    )
}

/// Writes the line of one row.
pub fn render_row(label: &str, outcomes: &Vec<CellOutcome>) -> (r: String)
    ensures
        r@ == row_text(label@, outcomes@),
{
    let mut s = pad_right(label, LABEL_WIDTH);
    s.append("|");
    let ghost start = s@;
    let ghost cells = outcomes@.map_values(|o: CellOutcome| cell_text(o));
    let mut i: usize = 0;
    assert(start + columns_text(cells.take(0)) =~= start);
    while i < outcomes.len()
        invariant
            i <= outcomes.len(),
            cells == outcomes@.map_values(|o: CellOutcome| cell_text(o)),
            s@ == start + columns_text(cells.take(i as int)),
        decreases outcomes.len() - i,
    {
        let cell = render_cell(&outcomes[i]);
        s.append(" ");
        s.append(cell.as_str());
        s.append(" |");
        proof {
            let next = cells.take(i + 1);
            assert(next.drop_last() =~= cells.take(i as int));
            assert(next.last() == cell@);
            assert(s@ =~= start + columns_text(next));
        }
        i = i + 1;
    }
    assert(cells.take(i as int) =~= cells);
    s
}

/// The heading of one column: the block size and the units of the cell.
pub open spec fn heading_text(bytes: nat) -> Seq<char> {
    right_aligned(size_text(bytes) + " (MB/s, IOPS)"@, CELL_WIDTH as nat)
}

/// The line above the results: the headings of the columns.
pub open spec fn header_text(block_sizes: Seq<usize>) -> Seq<char> {
    left_aligned("Block Size"@, LABEL_WIDTH as nat) + "|"@ + columns_text(
        block_sizes.map_values(|b: usize| heading_text(b as nat)),
    )
}

/// Writes the line of column headings.
pub fn render_header(block_sizes: &Vec<usize>) -> (r: String)
    ensures
        r@ == header_text(block_sizes@),
{
    let mut s = pad_right("Block Size", LABEL_WIDTH);
    s.append("|");
    let ghost start = s@;
    let ghost cells = block_sizes@.map_values(|b: usize| heading_text(b as nat));
    let mut i: usize = 0;
    assert(start + columns_text(cells.take(0)) =~= start);
    while i < block_sizes.len()
        invariant
            i <= block_sizes.len(),
            cells == block_sizes@.map_values(|b: usize| heading_text(b as nat)),
            s@ == start + columns_text(cells.take(i as int)),
        decreases block_sizes.len() - i,
    {
        let mut label = size_label(block_sizes[i]);
        label.append(" (MB/s, IOPS)");
        let cell = pad_left(label.as_str(), CELL_WIDTH);
        s.append(" ");
        s.append(cell.as_str());
        s.append(" |");
        proof {
            let next = cells.take(i + 1);
            assert(next.drop_last() =~= cells.take(i as int));
            assert(next.last() == cell@);
            assert(s@ =~= start + columns_text(next));
        }
        i = i + 1;
    }
    assert(cells.take(i as int) =~= cells);
    s
}

/// `count` dashes.
pub open spec fn dashes(count: nat) -> Seq<char> {
    Seq::new(count, |i: int| '-')
}

/// The rule between the headings and the results.
pub open spec fn rule_text(columns: nat) -> Seq<char>
    decreases columns,
{
    if columns == 0 {
        dashes(LABEL_WIDTH as nat) + "|"@
    } else {
        rule_text((columns - 1) as nat) + dashes((CELL_WIDTH + 2) as nat) + "|"@
    }
}

/// Writes the rule for a table of `columns` columns.
pub fn render_rule(columns: usize) -> (r: String)
    ensures
        r@ == rule_text(columns as nat),
{
    let mut s = String::new();
    let mut k: usize = 0;
    assert(s@ =~= dashes(0));
    while k < LABEL_WIDTH
        invariant
            k <= LABEL_WIDTH,
            s@ == dashes(k as nat),
        decreases LABEL_WIDTH - k,
    {
        proof {
            reveal_strlit("-");
        }
        s.append("-");
        k = k + 1;
        assert(s@ =~= dashes(k as nat));
    }
    s.append("|");
    let mut i: usize = 0;
    while i < columns
        invariant
            i <= columns,
            s@ == rule_text(i as nat),
        decreases columns - i,
    {
        let ghost before = s@;
        let mut j: usize = 0;
        while j < CELL_WIDTH + 2
            invariant
                j <= CELL_WIDTH + 2,
                s@ == before + dashes(j as nat),
            decreases CELL_WIDTH + 2 - j,
        {
            proof {
                reveal_strlit("-");
            }
            s.append("-");
            j = j + 1;
            assert(s@ =~= before + dashes(j as nat));
        }
        s.append("|");
        i = i + 1;
    }
    s
}

/// The heading of a table: the cache mode between two rules.
pub open spec fn table_heading_text(cache: OpenMode) -> Seq<char> {
    "================ "@ + cache_text(cache) + " ================"@
}

/// Writes the heading of a table.
pub fn table_heading(cache: OpenMode) -> (r: String)
    ensures
        r@ == table_heading_text(cache),
{
    let mut s = String::from_str("================ ");
    s.append(cache_label(cache));
    s.append(" ================");
    s
}

/// Percentage of reads under `mix`, rounded down.
pub open spec fn read_percent(mix: MixRatio) -> nat {
    ((mix.read_parts * 100) / (mix.total_parts as int)) as nat
}

/// The name of a row: the pattern, and for the mixed pattern the shares of
/// reads and writes in percent.
pub open spec fn row_label_text(mode: Mode, mix: MixRatio) -> Seq<char> {
    if mode == Mode::RandRW {
        mode_text(mode) + "("@ + digits(read_percent(mix)) + "%/"@ + digits(
            (100 - read_percent(mix)) as nat,
        ) + "%)"@
    } else {
        mode_text(mode)
    }
}

/// Writes the name of a row.
pub fn row_label(mode: Mode, mix: MixRatio) -> (r: String)
    requires
        mix.wf(),
    ensures
        r@ == row_label_text(mode, mix),
{
    let mut s = String::from_str(mode_label(mode));
    match mode {
        Mode::RandRW => {
            let reads: u64 = (mix.read_parts as u64) * 100 / (mix.total_parts as u64);
            proof {
                let n = mix.read_parts as int;
                let d = mix.total_parts as int;
                assert(0 <= (n * 100) / d <= 100) by (nonlinear_arith)
                    requires
                        0 <= n <= d,
                        0 < d,
                ;
            }
            s.append("(");
            s.append(decimal(reads as u128).as_str());
            s.append("%/");
            s.append(decimal((100 - reads) as u128).as_str());
            s.append("%)");
        },
        _ => {},
    }
    s
}

/// The first `count` rows of a table, each on a line of its own and named
/// by its pattern.
pub open spec fn rows_text(
    modes: Seq<Mode>,
    mix: MixRatio,
    rows: Seq<Seq<CellOutcome>>,
    count: nat,
) -> Seq<char>
    decreases count,
{
    if count == 0 {
        Seq::empty()
    } else {
        rows_text(modes, mix, rows, (count - 1) as nat) + row_text(
            row_label_text(modes[count - 1], mix),
            rows[count - 1],
        ) + "\n"@
    }
}

/// The table of one cache mode: its heading, the headings of the columns,
/// one column for each block size, a rule, and one row for each pattern, in
/// the order of the patterns.
pub open spec fn table_text(
    cache: OpenMode,
    modes: Seq<Mode>,
    mix: MixRatio,
    block_sizes: Seq<usize>,
    rows: Seq<Seq<CellOutcome>>,
) -> Seq<char> {
    table_heading_text(cache) + "\n"@ + header_text(block_sizes) + "\n"@ + rule_text(
        block_sizes.len(),
    ) + "\n"@ + rows_text(modes, mix, rows, modes.len())
}

/// The outcomes of a row as plain values.
pub open spec fn rows_view(rows: Seq<Vec<CellOutcome>>) -> Seq<Seq<CellOutcome>> {
    rows.map_values(|r: Vec<CellOutcome>| r@)
}

/// Whether a table of the matrix can be written from `rows`: the table is
/// one of the matrix, there is a row for each pattern, and the mix ratio is
/// a probability.
pub open spec fn table_fits(matrix: RunMatrix, table: usize, rows: Seq<Vec<CellOutcome>>) -> bool {
    &&& table < matrix.cache_modes@.len()
    &&& rows.len() == matrix.modes@.len()
    &&& matrix.mix.wf()
}

/// Writes the table of one cache mode of the matrix from the outcomes of
/// its cells, row by row. `None` where the table cannot be written.
pub fn render_table(matrix: &RunMatrix, table: usize, rows: &Vec<Vec<CellOutcome>>) -> (r: Option<
    String,
>)
    ensures
        r is Some <==> table_fits(*matrix, table, rows@),
        r is Some ==> r->0@ == table_text(
            matrix.cache_modes@[table as int],
            matrix.modes@,
            matrix.mix,
            matrix.block_sizes@,
            rows_view(rows@),
        ),
{
    if table >= matrix.cache_modes.len() || rows.len() != matrix.modes.len()
        || matrix.mix.total_parts == 0 || matrix.mix.read_parts > matrix.mix.total_parts {
        return None;
    }
    let mut s = table_heading(matrix.cache_modes[table]);
    s.append("\n");
    s.append(render_header(&matrix.block_sizes).as_str());
    s.append("\n");
    s.append(render_rule(matrix.block_sizes.len()).as_str());
    s.append("\n");
    let ghost head = s@;
    let ghost shown = rows_view(rows@);
    let mut i: usize = 0;
    assert(head + rows_text(matrix.modes@, matrix.mix, shown, 0) =~= head);
    while i < rows.len()
        invariant
            i <= rows.len(),
            rows@.len() == matrix.modes@.len(),
            matrix.mix.wf(),
            shown == rows_view(rows@),
            s@ == head + rows_text(matrix.modes@, matrix.mix, shown, i as nat),
        decreases rows.len() - i,
    {
        let label = row_label(matrix.modes[i], matrix.mix);
        let line = render_row(label.as_str(), &rows[i]);
        s.append(line.as_str());
        s.append("\n");
        proof {
            assert(shown[i as int] == rows@[i as int]@);
            assert(s@ =~= head + rows_text(matrix.modes@, matrix.mix, shown, (i + 1) as nat));
        }
        i = i + 1;
    }
    Some(s)
}

} // verus!
