use aish::grid_text::{text_batches, GridCell};

fn cell(line: i32, col: u16, ch: char, fg: u32) -> GridCell {
    GridCell { line, col, ch, fg }
}

fn runs(cells: &[GridCell]) -> Vec<(i32, u16, String, u32)> {
    text_batches(&cells.to_vec())
        .into_iter()
        .map(|b| (b.line, b.start_col, b.text, b.fg))
        .collect()
}

#[test]
fn adjacent_cells_of_one_color_share_a_run() {
    let w = 0xffffff;
    let cells = [cell(0, 0, '$', w), cell(0, 1, ' ', w), cell(0, 2, 'l', w), cell(0, 3, 's', w)];
    assert_eq!(runs(&cells), vec![(0, 0, "$".to_string(), w), (0, 2, "ls".to_string(), w)]);
}

#[test]
fn color_change_starts_a_run() {
    let (w, g) = (0xffffff, 0x00ff00);
    let cells = [cell(0, 0, 'a', w), cell(0, 1, 'b', g), cell(0, 2, 'c', g)];
    assert_eq!(runs(&cells), vec![(0, 0, "a".to_string(), w), (0, 1, "bc".to_string(), g)]);
}

#[test]
fn new_line_starts_a_run_and_blanks_are_skipped() {
    let w = 0xffffff;
    let cells = [
        cell(-1, 0, 'x', w),
        cell(-1, 1, '\0', w),
        cell(0, 0, 'y', w),
        cell(0, 1, 'z', w),
    ];
    assert_eq!(runs(&cells), vec![(-1, 0, "x".to_string(), w), (0, 0, "yz".to_string(), w)]);
    let cell_counts: Vec<usize> = text_batches(&cells.to_vec()).iter().map(|b| b.cell_count).collect();
    assert_eq!(cell_counts, vec![1, 2]);
}

#[test]
fn all_blank_grid_draws_nothing() {
    let cells = [cell(0, 0, ' ', 1), cell(0, 1, '\0', 1)];
    assert!(runs(&cells).is_empty());
}
