use resource_manager::layout::Rect;
use resource_manager::model::{DisksStats, ProcessInfo, SystemStats};
use resource_manager::render::{draw_ui, Align, PaintOp};
use resource_manager::severity::TierColor;

fn sample_stats() -> SystemStats {
    SystemStats {
        host_name: Some(String::from("machine")),
        os_version: None,
        uptime: 42,
        arch: String::from("x86_64"),
        os_name: None,
        cpu_names: vec![String::from("0")],
        cpu_global_usage: 3000,
        cpu_cores: vec![2500],
        total_memory: 16_000_000_000,
        used_memory: 8_000_000_000,
        free_memory: 1_230_000_000,
    }
}

fn sample_disks() -> DisksStats {
    DisksStats {
        disk_names: vec![String::from("sda")],
        disk_mnt_pts: vec![String::from("/")],
        disk_usages: vec![8000],
        disk_filesystems: vec![String::from("ext4")],
        disk_kinds: vec![String::from("SSD")],
    }
}

fn sample_processes() -> Vec<ProcessInfo> {
    vec![ProcessInfo {
        pid: 1,
        name: String::from("init"),
        memory: 123_450_000,
        cpu: 150,
        uptime: 99,
        euid: None,
        egid: Some(1000),
    }]
}

fn sample_frame() -> Vec<PaintOp> {
    let stats = sample_stats();
    let disks = sample_disks();
    let processes = sample_processes();
    assert!(stats.is_wf());
    assert!(disks.is_wf());
    draw_ui(&stats, &disks, &processes, Rect { x: 0, y: 0, width: 120, height: 50 })
}

fn find<'a>(ops: &'a [PaintOp], text: &str) -> &'a PaintOp {
    ops.iter()
        .find(|op| op.text == text)
        .unwrap_or_else(|| panic!("no op with text {:?}", text))
}

#[test]
fn disk_at_eighty_percent_is_painted_critical() {
    let ops = sample_frame();
    let usage = find(&ops, "80.00%");
    assert_eq!(usage.color, Some(TierColor::Red));
    assert_eq!(usage.align, Align::Right);
}

#[test]
fn process_with_group_id_only_shows_the_na_slash_form() {
    let ops = sample_frame();
    let ids = find(&ops, "N/A / 1000");
    assert_eq!(ids.color, None);
}

#[test]
fn memory_at_exactly_half_is_painted_normal() {
    let ops = sample_frame();
    let pct = find(&ops, "50.00%");
    assert_eq!(pct.color, Some(TierColor::Green));
}

#[test]
fn total_memory_shows_sixteen_gigabytes() {
    let ops = sample_frame();
    let total = find(&ops, "16.00 GB");
    assert_eq!(total.color, None);
    assert_eq!(total.align, Align::Right);
}

#[test]
fn missing_identity_field_shows_the_unavailable_marker() {
    let ops = sample_frame();
    find(&ops, "unavailable");
}

#[test]
fn section_titles_are_painted() {
    let ops = sample_frame();
    find(&ops, "Stats");
    find(&ops, "Processes");
    find(&ops, "Disk 0");
}

#[test]
fn table_header_cells_are_yellow() {
    let ops = sample_frame();
    for caption in ["PID", "Name", "Mem (MB)", "CPU", "Uptime (s)", "EUID/EGID"] {
        let cell = find(&ops, caption);
        assert_eq!(cell.color, Some(TierColor::Yellow));
        assert_eq!(cell.align, Align::Left);
    }
}

#[test]
fn global_cpu_usage_is_colored_by_severity() {
    let ops = sample_frame();
    let global = find(&ops, "30.00%");
    assert_eq!(global.color, Some(TierColor::Green));
}

#[test]
fn core_rows_carry_name_and_usage() {
    let ops = sample_frame();
    find(&ops, "CPU 0");
    find(&ops, "25.00%");
}

#[test]
fn process_row_values_are_painted() {
    let ops = sample_frame();
    find(&ops, "init");
    let mem = find(&ops, "123.45");
    assert_eq!(mem.color, None);
    find(&ops, "1.50%");
    find(&ops, "99");
}

#[test]
fn empty_viewport_and_empty_snapshot_still_render() {
    let stats = SystemStats {
        host_name: None,
        os_version: None,
        uptime: 0,
        arch: String::new(),
        os_name: None,
        cpu_names: vec![],
        cpu_global_usage: 0,
        cpu_cores: vec![],
        total_memory: 0,
        used_memory: 0,
        free_memory: 0,
    };
    let disks = DisksStats {
        disk_names: vec![],
        disk_mnt_pts: vec![],
        disk_usages: vec![],
        disk_filesystems: vec![],
        disk_kinds: vec![],
    };
    let processes: Vec<ProcessInfo> = vec![];
    assert!(stats.is_wf());
    assert!(disks.is_wf());
    let ops = draw_ui(&stats, &disks, &processes, Rect { x: 0, y: 0, width: 0, height: 0 });
    // The two titles, the global CPU pair, and the six header cells are
    // always painted; everything else needs space.
    assert_eq!(ops.len(), 10);
    find(&ops, "Stats");
    find(&ops, "Processes");
}

#[test]
fn no_disks_paint_no_disk_blocks() {
    let stats = sample_stats();
    let disks = DisksStats {
        disk_names: vec![],
        disk_mnt_pts: vec![],
        disk_usages: vec![],
        disk_filesystems: vec![],
        disk_kinds: vec![],
    };
    let processes = sample_processes();
    let ops = draw_ui(&stats, &disks, &processes, Rect { x: 0, y: 0, width: 120, height: 50 });
    assert!(ops.iter().all(|op| !op.text.starts_with("Disk ")));
}
