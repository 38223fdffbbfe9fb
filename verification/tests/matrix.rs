use vps_toolkit::matrix::{CellIndex, RunMatrix};
use vps_toolkit::workload::{MixRatio, Mode, OpenMode, SpecError, WorkloadSpec};

fn at(table: usize, row: usize, column: usize) -> CellIndex {
    CellIndex { table, row, column }
}

#[test]
fn standard_matrix_has_the_documented_axes() {
    let m = RunMatrix::standard();
    assert_eq!(m.cache_modes, vec![OpenMode::Buffered, OpenMode::Direct]);
    assert_eq!(
        m.modes,
        vec![Mode::SeqRead, Mode::SeqWrite, Mode::RandRead, Mode::RandWrite, Mode::RandRW]
    );
    assert_eq!(m.block_sizes, vec![4 * 1024, 64 * 1024, 512 * 1024, 1024 * 1024]);
    assert_eq!(m.total_size, 256 * 1024 * 1024);
    assert_eq!(m.concurrency, 4);
    assert_eq!(m.mix, MixRatio { read_parts: 1, total_parts: 2 });
}

#[test]
fn sweep_visits_every_cell_once_in_order() {
    let m = RunMatrix::standard();
    let mut seen = Vec::new();
    let mut cursor = m.first();
    while let Some(cell) = cursor {
        seen.push(cell);
        cursor = m.after(cell);
    }
    assert_eq!(seen.len(), 2 * 5 * 4);
    let mut expected = Vec::new();
    for table in 0..2 {
        for row in 0..5 {
            for column in 0..4 {
                expected.push(at(table, row, column));
            }
        }
    }
    assert_eq!(seen, expected);
}

#[test]
fn successor_steps_columns_then_rows_then_tables() {
    let m = RunMatrix::standard();
    assert_eq!(m.first(), Some(at(0, 0, 0)));
    assert_eq!(m.after(at(0, 0, 0)), Some(at(0, 0, 1)));
    assert_eq!(m.after(at(0, 0, 3)), Some(at(0, 1, 0)));
    assert_eq!(m.after(at(0, 4, 3)), Some(at(1, 0, 0)));
    assert_eq!(m.after(at(1, 4, 3)), None);
    assert_eq!(m.after(at(2, 0, 0)), None);
    assert_eq!(m.after(at(0, 5, 0)), None);
    assert_eq!(m.after(at(0, 0, 4)), None);
}

#[test]
fn ends_table_marks_the_last_cell_of_a_table() {
    let m = RunMatrix::standard();
    assert!(m.ends_table(at(0, 4, 3)));
    assert!(m.ends_table(at(1, 4, 3)));
    assert!(!m.ends_table(at(0, 4, 2)));
    assert!(!m.ends_table(at(0, 3, 3)));
    assert!(!m.ends_table(at(2, 4, 3)));
    assert!(!m.ends_table(at(0, 5, 3)));
}

#[test]
fn ends_row_marks_the_last_column() {
    let m = RunMatrix::standard();
    assert!(!m.ends_row(at(0, 0, 0)));
    assert!(!m.ends_row(at(0, 0, 2)));
    assert!(m.ends_row(at(0, 0, 3)));
    assert!(m.ends_row(at(1, 4, 3)));
    assert!(!m.ends_row(at(2, 0, 3)));
    assert!(!m.ends_row(at(0, 0, 4)));
}

#[test]
fn workload_of_a_cell_takes_its_axes_values() {
    let m = RunMatrix::standard();
    assert_eq!(
        m.workload_at(at(1, 4, 2)),
        Some(Ok(WorkloadSpec {
            block_size: 512 * 1024,
            total_size: 256 * 1024 * 1024,
            mode: Mode::RandRW,
            concurrency: 4,
            direct_io: true,
            mix: MixRatio { read_parts: 1, total_parts: 2 },
        }))
    );
    assert_eq!(
        m.workload_at(at(0, 0, 0)),
        Some(Ok(WorkloadSpec {
            block_size: 4096,
            total_size: 256 * 1024 * 1024,
            mode: Mode::SeqRead,
            concurrency: 4,
            direct_io: false,
            mix: MixRatio { read_parts: 1, total_parts: 2 },
        }))
    );
    assert_eq!(m.workload_at(at(2, 0, 0)), None);
    assert_eq!(m.workload_at(at(0, 5, 0)), None);
    assert_eq!(m.workload_at(at(0, 0, 4)), None);
}

#[test]
fn cell_with_impossible_parameters_reports_why() {
    let mut m = RunMatrix::standard();
    m.block_sizes = vec![0, 4096];
    m.total_size = 8192;
    assert_eq!(m.workload_at(at(0, 0, 0)), Some(Err(SpecError::ZeroBlockSize)));
    // Two blocks for four sequential workers.
    assert_eq!(m.workload_at(at(0, 0, 1)), Some(Err(SpecError::TooFewBlocks)));
    // The random patterns accept that.
    assert!(matches!(m.workload_at(at(0, 2, 1)), Some(Ok(_))));
}

#[test]
fn matrix_with_an_empty_axis_has_no_first_cell() {
    let mut m = RunMatrix::standard();
    m.modes = Vec::new();
    assert_eq!(m.first(), None);
    let mut m = RunMatrix::standard();
    m.block_sizes = Vec::new();
    assert_eq!(m.first(), None);
    let mut m = RunMatrix::standard();
    m.cache_modes = Vec::new();
    assert_eq!(m.first(), None);
}
