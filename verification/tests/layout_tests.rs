use resource_manager::layout::{
    compute_layout, cpu_rows, disk_blocks, inner, line_rows, split, title_row, Constraint,
    Direction, Rect,
};

fn rect(x: u16, y: u16, width: u16, height: u16) -> Rect {
    Rect { x, y, width, height }
}

#[test]
fn split_by_percentages() {
    let cs = vec![Constraint::Percentage(28), Constraint::Percentage(72)];
    let out = split(rect(0, 0, 100, 40), Direction::Horizontal, &cs);
    assert_eq!(out.len(), 2);
    assert_eq!(out[0], rect(0, 0, 28, 40));
    assert_eq!(out[1], rect(28, 0, 72, 40));
}

#[test]
fn split_clips_lengths_to_the_space_left() {
    let cs = vec![Constraint::Length(3), Constraint::Length(20)];
    let out = split(rect(0, 0, 10, 10), Direction::Vertical, &cs);
    assert_eq!(out[0], rect(0, 0, 10, 3));
    assert_eq!(out[1], rect(0, 3, 10, 7));
}

#[test]
fn inner_shrinks_by_margins() {
    assert_eq!(inner(rect(0, 0, 10, 10), 3, 2), rect(3, 2, 4, 6));
}

#[test]
fn inner_collapses_when_margins_exceed_the_rectangle() {
    let r = inner(rect(0, 0, 2, 2), 3, 2);
    assert_eq!(r.width, 0);
    assert_eq!(r.height, 0);
}

#[test]
fn line_rows_are_single_lines_clipped_to_the_height() {
    let rows = line_rows(rect(0, 0, 10, 3), 5);
    assert_eq!(rows.len(), 3);
    assert_eq!(rows[0], rect(0, 0, 10, 1));
    assert_eq!(rows[2], rect(0, 2, 10, 1));
}

#[test]
fn title_row_is_the_top_line() {
    assert_eq!(title_row(rect(5, 7, 10, 4)), rect(5, 7, 10, 1));
}

#[test]
fn cpu_rows_reserve_one_row_per_core() {
    let band = rect(0, 0, 20, 40);
    for n in [1usize, 4, 32] {
        let (global, rows) = cpu_rows(band, n);
        assert_eq!(global, rect(0, 0, 20, 1));
        assert_eq!(rows.len(), n);
        for (i, row) in rows.iter().enumerate() {
            assert_eq!(*row, rect(0, 1 + i as u16, 20, 1));
        }
    }
}

#[test]
fn cpu_rows_clip_to_the_band_height() {
    let (global, rows) = cpu_rows(rect(0, 0, 20, 10), 32);
    assert_eq!(global.height, 1);
    assert_eq!(rows.len(), 9);
}

#[test]
fn disk_blocks_share_the_band_and_the_last_absorbs_the_remainder() {
    let blocks = disk_blocks(rect(0, 0, 30, 10), 3);
    assert_eq!(blocks.len(), 3);
    assert_eq!(blocks[0], rect(0, 0, 30, 3));
    assert_eq!(blocks[1], rect(0, 3, 30, 3));
    assert_eq!(blocks[2], rect(0, 6, 30, 4));
}

#[test]
fn zero_disks_give_zero_blocks() {
    let blocks = disk_blocks(rect(0, 0, 30, 10), 0);
    assert_eq!(blocks.len(), 0);
}

#[test]
fn layout_with_zero_disks_has_no_disk_blocks() {
    let tree = compute_layout(rect(0, 0, 120, 50), 4, 0);
    assert_eq!(tree.disk_blocks.len(), 0);
}

#[test]
fn layout_is_identical_when_recomputed() {
    let root = rect(0, 0, 120, 50);
    let a = compute_layout(root, 4, 2);
    let b = compute_layout(root, 4, 2);
    assert_eq!(a.stats, b.stats);
    assert_eq!(a.processes, b.processes);
    assert_eq!(a.cpu_global, b.cpu_global);
    assert_eq!(a.cpu_core_rows, b.cpu_core_rows);
    assert_eq!(a.memory_band, b.memory_band);
    assert_eq!(a.disks_band, b.disks_band);
    assert_eq!(a.disk_blocks, b.disk_blocks);
    assert_eq!(a.system_band, b.system_band);
    assert_eq!(a.process_header, b.process_header);
    assert_eq!(a.process_body, b.process_body);
}

#[test]
fn layout_sections_are_stacked_and_sized_by_the_counts() {
    let tree = compute_layout(rect(0, 0, 120, 50), 4, 2);
    assert_eq!(tree.stats, rect(0, 0, 33, 50));
    assert_eq!(tree.processes, rect(33, 0, 87, 50));
    assert_eq!(tree.cpu_global, rect(3, 2, 27, 1));
    assert_eq!(tree.cpu_core_rows.len(), 4);
    assert_eq!(tree.memory_band, rect(3, 10, 27, 7));
    assert_eq!(tree.disks_band, rect(3, 17, 27, 25));
    assert_eq!(tree.disk_blocks.len(), 2);
    assert_eq!(tree.disk_blocks[0], rect(3, 17, 27, 12));
    assert_eq!(tree.disk_blocks[1], rect(3, 29, 27, 13));
    assert_eq!(tree.system_band, rect(3, 42, 27, 6));
    assert_eq!(tree.process_header, rect(37, 3, 79, 1));
    assert_eq!(tree.process_body, rect(37, 5, 79, 42));
}

#[test]
fn stats_and_processes_columns_cover_the_frame() {
    let narrow = compute_layout(rect(0, 0, 10, 8), 1, 0);
    assert_eq!(narrow.stats, rect(0, 0, 2, 8));
    assert_eq!(narrow.processes, rect(2, 0, 8, 8));
    let wide = compute_layout(rect(0, 0, 120, 50), 4, 2);
    assert_eq!(wide.stats.width + wide.processes.width, 120);
    assert_eq!(wide.processes.x + wide.processes.width, 120);
}

#[test]
fn percentages_over_one_hundred_are_capped() {
    let cs = vec![Constraint::Percentage(150)];
    let out = split(rect(0, 0, 50, 10), Direction::Horizontal, &cs);
    assert_eq!(out[0], rect(0, 0, 50, 10));
}

#[test]
fn cpu_band_grows_with_the_core_count() {
    let root = rect(0, 0, 120, 50);
    let few = compute_layout(root, 1, 0);
    let many = compute_layout(root, 8, 0);
    assert!(many.cpu_core_rows.len() > few.cpu_core_rows.len());
    assert!(many.memory_band.y > few.memory_band.y);
}
