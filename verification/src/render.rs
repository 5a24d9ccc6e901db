//! Renderer: from a snapshot and a layout to plain paint instructions.
//!
//! Rendering is pure. Each section walks its layout regions together with
//! the snapshot and appends one `PaintOp` per piece of text: the rectangle
//! to paint into, the text itself, its alignment, and an optional severity
//! color. The ops are write-only output; painting them on a real terminal
//! happens outside the library.

use crate::format::{
    format_centi, format_gb, format_ids, format_mb, format_percent, opt_text, percent_centi,
    round_to_centi, spec_centi, spec_dec, spec_gb_string, spec_ids_string, spec_mb_string,
    spec_percent_centi, spec_percent_string, spec_round_to_centi, u64_to_string,
};
use crate::layout::{columns, inner, line_rows, spec_columns, spec_inner, spec_line_rows, Rect};
use crate::model::SystemStats;
use crate::severity::{color_severity, spec_classify, spec_color_of, TierColor};
use vstd::prelude::*;
use vstd::string::StringExecFns;

verus! {

/// Horizontal placement of a text within its rectangle.
#[derive(Clone, Copy, Debug, PartialEq, Eq, Structural)]
pub enum Align {
    Left,
    Right,
}

/// One paint instruction: a text, where to paint it, how to align it, and
/// its severity color, if any.
pub struct PaintOp {
    pub area: Rect,
    pub text: String,
    pub align: Align,
    pub color: Option<TierColor>,
}

/// Mathematical model of one paint instruction.
pub struct PaintOpModel {
    pub area: Rect,
    pub text: Seq<char>,
    pub align: Align,
    pub color: Option<TierColor>,
}

impl View for PaintOp {
    type V = PaintOpModel;

    open spec fn view(&self) -> PaintOpModel {
        PaintOpModel { area: self.area, text: self.text@, align: self.align, color: self.color }
    }
}

/// The models of a sequence of paint instructions.
pub open spec fn views_of(ops: Seq<PaintOp>) -> Seq<PaintOpModel> {
    ops.map_values(|o: PaintOp| o@)
}

proof fn lemma_views_push(s: Seq<PaintOp>, op: PaintOp)
    ensures
        views_of(s.push(op)) == views_of(s).push(op@),
{
    assert(views_of(s.push(op)) =~= views_of(s).push(op@));
}

/// A plain label on the left and its value on the right.
pub open spec fn spec_label_value_ops(
    label: Seq<char>,
    value: Seq<char>,
    label_area: Rect,
    value_area: Rect,
) -> Seq<PaintOpModel> {
    seq![
        PaintOpModel { area: label_area, text: label, align: Align::Left, color: None },
        PaintOpModel { area: value_area, text: value, align: Align::Right, color: None },
    ]
}

/// A plain label on the left and a severity-colored value on the right;
/// the color follows the classified percentage.
pub open spec fn spec_label_colored_ops(
    label: Seq<char>,
    centi_percent: int,
    label_area: Rect,
    value_area: Rect,
) -> Seq<PaintOpModel> {
    seq![
        PaintOpModel { area: label_area, text: label, align: Align::Left, color: None },
        PaintOpModel {
            area: value_area,
            text: spec_percent_string(centi_percent),
            align: Align::Right,
            color: Some(spec_color_of(spec_classify(centi_percent))),
        },
    ]
}

/// Paint a label left-aligned in one rectangle and a value right-aligned
/// in another.
pub fn render_label_value(
    label: &str,
    value: String,
    label_chunk: Rect,
    value_chunk: Rect,
    ops: &mut Vec<PaintOp>,
)
    ensures
        views_of(final(ops)@) == views_of(old(ops)@) + spec_label_value_ops(
            label@,
            value@,
            label_chunk,
            value_chunk,
        ),
{
    let ghost base = ops@;
    ops.push(
        PaintOp {
            area: label_chunk,
            text: String::from_str(label),
            align: Align::Left,
            color: None,
        },
    );
    proof {
        lemma_views_push(base, final(ops)@[base.len() as int]);
    }
    let ghost mid = ops@;
    ops.push(PaintOp { area: value_chunk, text: value, align: Align::Right, color: None });
    proof {
        lemma_views_push(mid, final(ops)@[mid.len() as int]);
        assert(views_of(final(ops)@) =~= views_of(old(ops)@) + spec_label_value_ops(
            label@,
            value@,
            label_chunk,
            value_chunk,
        ));
    }
}

/// Paint a label and a severity-colored percentage value.
pub fn render_label_colored(
    label: &str,
    centi_percent: u64,
    label_chunk: Rect,
    value_chunk: Rect,
    ops: &mut Vec<PaintOp>,
)
    ensures
        views_of(final(ops)@) == views_of(old(ops)@) + spec_label_colored_ops(
            label@,
            centi_percent as int,
            label_chunk,
            value_chunk,
        ),
{
    let ghost base = ops@;
    ops.push(
        PaintOp {
            area: label_chunk,
            text: String::from_str(label),
            align: Align::Left,
            color: None,
        },
    );
    proof {
        lemma_views_push(base, final(ops)@[base.len() as int]);
    }
    let ghost mid = ops@;
    let color = color_severity(centi_percent);
    ops.push(
        PaintOp {
            area: value_chunk,
            text: format_percent(centi_percent),
            align: Align::Right,
            color: Some(color),
        },
    );
    proof {
        lemma_views_push(mid, final(ops)@[mid.len() as int]);
        assert(views_of(final(ops)@) =~= views_of(old(ops)@) + spec_label_colored_ops(
            label@,
            centi_percent as int,
            label_chunk,
            value_chunk,
        ));
    }
}

/// Ops of one per-core row: the core's name on the left, its usage on the
/// right, both within the halves of the row.
pub open spec fn spec_cpu_row_ops(stats: SystemStats, rows: Seq<Rect>, i: int) -> Seq<
    PaintOpModel,
> {
    spec_label_value_ops(
        "CPU "@ + stats.cpu_names@[i]@,
        spec_percent_string(stats.cpu_cores@[i] as int),
        spec_columns(rows[i]).0,
        spec_columns(rows[i]).1,
    )
}

/// Ops of the first `k` per-core rows, in row order.
pub open spec fn spec_cpu_core_ops(stats: SystemStats, rows: Seq<Rect>, k: int) -> Seq<
    PaintOpModel,
>
    decreases k,
{
    if k <= 0 {
        Seq::empty()
    } else {
        spec_cpu_core_ops(stats, rows, k - 1) + spec_cpu_row_ops(stats, rows, k - 1)
    }
}

/// The whole CPU section: the global usage row, colored by severity, then
/// one row per core, as many as the layout granted rows.
pub open spec fn spec_cpu_section_ops(
    stats: SystemStats,
    global: Rect,
    rows: Seq<Rect>,
) -> Seq<PaintOpModel> {
    let k = if rows.len() < stats.cpu_cores@.len() {
        rows.len() as int
    } else {
        stats.cpu_cores@.len() as int
    };
    spec_label_colored_ops(
        "Global CPU Usage: "@,
        stats.cpu_global_usage as int,
        spec_columns(global).0,
        spec_columns(global).1,
    ) + spec_cpu_core_ops(stats, rows, k)
}

/// Paint the CPU section: the global usage figure, then one line per core
/// with its name and usage.
pub fn draw_cpu_section(
    stats: &SystemStats,
    global: Rect,
    core_rows: &Vec<Rect>,
    ops: &mut Vec<PaintOp>,
)
    requires
        stats.wf(),
        crate::layout::rect_fits(global),
        forall|i: int|
            0 <= i < core_rows@.len() ==> crate::layout::rect_fits(#[trigger] core_rows@[i]),
    ensures
        views_of(final(ops)@) == views_of(old(ops)@) + spec_cpu_section_ops(
            *stats,
            global,
            core_rows@,
        ),
{
    let gcols = columns(global);
    render_label_colored("Global CPU Usage: ", stats.cpu_global_usage, gcols.0, gcols.1, ops);
    let k: usize = if core_rows.len() < stats.cpu_cores.len() {
        core_rows.len()
    } else {
        stats.cpu_cores.len()
    };
    let mut i: usize = 0;
    proof {
        assert(views_of(ops@) =~= views_of(old(ops)@) + spec_label_colored_ops(
            "Global CPU Usage: "@,
            stats.cpu_global_usage as int,
            spec_columns(global).0,
            spec_columns(global).1,
        ) + spec_cpu_core_ops(*stats, core_rows@, 0));
    }
    while i < k
        invariant
            i <= k,
            stats.wf(),
            k <= core_rows@.len(),
            k <= stats.cpu_cores@.len(),
            forall|j: int|
                0 <= j < core_rows@.len() ==> crate::layout::rect_fits(#[trigger] core_rows@[j]),
            views_of(ops@) == views_of(old(ops)@) + spec_label_colored_ops(
                "Global CPU Usage: "@,
                stats.cpu_global_usage as int,
                spec_columns(global).0,
                spec_columns(global).1,
            ) + spec_cpu_core_ops(*stats, core_rows@, i as int),
        decreases k - i,
    {
        let row = core_rows[i];
        let cols = columns(row);
        let mut label = String::from_str("CPU ");
        label.append(stats.cpu_names[i].as_str());
        let value = format_percent(stats.cpu_cores[i]);
        let ghost before = views_of(ops@);
        render_label_value(label.as_str(), value, cols.0, cols.1, ops);
        proof {
            assert(views_of(ops@) =~= views_of(old(ops)@) + spec_label_colored_ops(
                "Global CPU Usage: "@,
                stats.cpu_global_usage as int,
                spec_columns(global).0,
                spec_columns(global).1,
            ) + spec_cpu_core_ops(*stats, core_rows@, i as int + 1));
        }
        i += 1;
    }
}


/// The memory section: the used share colored by severity, then total and
/// available and used memory in gigabytes and free memory in megabytes,
/// one label/value row each, clipped to the rows that fit the band.
pub open spec fn spec_memory_section_ops(stats: SystemStats, band: Rect) -> Seq<PaintOpModel> {
    let lcol = spec_inner(spec_columns(band).0, 1, 1);
    let rcol = spec_inner(spec_columns(band).1, 1, 1);
    let lrows = spec_line_rows(lcol, 6);
    let rrows = spec_line_rows(rcol, 6);
    let pct = spec_percent_centi(stats.used_memory as int, stats.total_memory as int);
    (if lrows.len() > 0 {
        spec_label_colored_ops("Memory: "@, pct, lrows[0], rrows[0])
    } else {
        Seq::empty()
    }) + (if lrows.len() > 2 {
        spec_label_value_ops(
            "Total Memory: "@,
            spec_gb_string(stats.total_memory as int),
            lrows[2],
            rrows[2],
        )
    } else {
        Seq::empty()
    }) + (if lrows.len() > 3 {
        spec_label_value_ops(
            "Avail Memory: "@,
            spec_gb_string(stats.total_memory - stats.used_memory),
            lrows[3],
            rrows[3],
        )
    } else {
        Seq::empty()
    }) + (if lrows.len() > 4 {
        spec_label_value_ops(
            "Used Memory: "@,
            spec_gb_string(stats.used_memory as int),
            lrows[4],
            rrows[4],
        )
    } else {
        Seq::empty()
    }) + (if lrows.len() > 5 {
        spec_label_value_ops(
            "Free Memory: "@,
            spec_mb_string(stats.free_memory as int),
            lrows[5],
            rrows[5],
        )
    } else {
        Seq::empty()
    })
}

/// Paint the memory section of the stats column.
pub fn draw_memory_section(stats: &SystemStats, band: Rect, ops: &mut Vec<PaintOp>)
    requires
        stats.wf(),
        crate::layout::rect_fits(band),
    ensures
        views_of(final(ops)@) == views_of(old(ops)@) + spec_memory_section_ops(*stats, band),
{
    let cols = columns(band);
    let lcol = inner(cols.0, 1, 1);
    let rcol = inner(cols.1, 1, 1);
    let lrows = line_rows(lcol, 6);
    let rrows = line_rows(rcol, 6);
    proof {
        assert(lrows@.len() == rrows@.len());
    }
    let pct = percent_centi(stats.used_memory, stats.total_memory);
    if lrows.len() > 0 {
        render_label_colored("Memory: ", pct, lrows[0], rrows[0], ops);
    }
    if lrows.len() > 2 {
        render_label_value("Total Memory: ", format_gb(stats.total_memory), lrows[2], rrows[2], ops);
    }
    if lrows.len() > 3 {
        let avail = stats.available_memory();
        render_label_value("Avail Memory: ", format_gb(avail), lrows[3], rrows[3], ops);
    }
    if lrows.len() > 4 {
        render_label_value("Used Memory: ", format_gb(stats.used_memory), lrows[4], rrows[4], ops);
    }
    if lrows.len() > 5 {
        render_label_value("Free Memory: ", format_mb(stats.free_memory), lrows[5], rrows[5], ops);
    }
    proof {
        assert(views_of(final(ops)@) =~= views_of(old(ops)@) + spec_memory_section_ops(
            *stats,
            band,
        ));
    }
}

/// The system identity section: hostname, OS version, uptime, CPU
/// architecture and OS name, one label/value row each, clipped to the
/// rows that fit; missing fields show the unavailable marker.
pub open spec fn spec_system_section_ops(stats: SystemStats, band: Rect) -> Seq<PaintOpModel> {
    let lcol = spec_inner(spec_columns(band).0, 1, 1);
    let rcol = spec_inner(spec_columns(band).1, 1, 1);
    let lrows = spec_line_rows(lcol, 5);
    let rrows = spec_line_rows(rcol, 5);
    (if lrows.len() > 0 {
        spec_label_value_ops(
            "Hostname: "@,
            crate::format::spec_opt_text(stats.host_name),
            lrows[0],
            rrows[0],
        )
    } else {
        Seq::empty()
    }) + (if lrows.len() > 1 {
        spec_label_value_ops(
            "Version: "@,
            crate::format::spec_opt_text(stats.os_version),
            lrows[1],
            rrows[1],
        )
    } else {
        Seq::empty()
    }) + (if lrows.len() > 2 {
        spec_label_value_ops("Uptime: "@, spec_dec(stats.uptime as int), lrows[2], rrows[2])
    } else {
        Seq::empty()
    }) + (if lrows.len() > 3 {
        spec_label_value_ops("CPU_Arch: "@, stats.arch@, lrows[3], rrows[3])
    } else {
        Seq::empty()
    }) + (if lrows.len() > 4 {
        spec_label_value_ops(
            "OS: "@,
            crate::format::spec_opt_text(stats.os_name),
            lrows[4],
            rrows[4],
        )
    } else {
        Seq::empty()
    })
}

/// Paint the system identity section of the stats column.
pub fn draw_system_section(stats: &SystemStats, band: Rect, ops: &mut Vec<PaintOp>)
    requires
        crate::layout::rect_fits(band),
    ensures
        views_of(final(ops)@) == views_of(old(ops)@) + spec_system_section_ops(*stats, band),
{
    let cols = columns(band);
    let lcol = inner(cols.0, 1, 1);
    let rcol = inner(cols.1, 1, 1);
    let lrows = line_rows(lcol, 5);
    let rrows = line_rows(rcol, 5);
    proof {
        assert(lrows@.len() == rrows@.len());
    }
    if lrows.len() > 0 {
        render_label_value("Hostname: ", opt_text(&stats.host_name), lrows[0], rrows[0], ops);
    }
    if lrows.len() > 1 {
        render_label_value("Version: ", opt_text(&stats.os_version), lrows[1], rrows[1], ops);
    }
    if lrows.len() > 2 {
        render_label_value("Uptime: ", u64_to_string(stats.uptime), lrows[2], rrows[2], ops);
    }
    if lrows.len() > 3 {
        render_label_value("CPU_Arch: ", stats.arch.clone(), lrows[3], rrows[3], ops);
    }
    if lrows.len() > 4 {
        render_label_value("OS: ", opt_text(&stats.os_name), lrows[4], rrows[4], ops);
    }
    proof {
        assert(views_of(final(ops)@) =~= views_of(old(ops)@) + spec_system_section_ops(
            *stats,
            band,
        ));
    }
}


/// Ops of one disk block: its title line, then label/value rows for mount
/// point, name, severity-colored usage, filesystem and kind, clipped to
/// the rows that fit the block.
pub open spec fn spec_disk_block_ops(disks: crate::model::DisksStats, blocks: Seq<Rect>, i: int) -> Seq<
    PaintOpModel,
> {
    let block = blocks[i];
    let inner_block = spec_inner(block, 1, 1);
    let lcol = spec_inner(spec_columns(inner_block).0, 1, 1);
    let rcol = spec_inner(spec_columns(inner_block).1, 1, 1);
    let lrows = spec_line_rows(lcol, 5);
    let rrows = spec_line_rows(rcol, 5);
    seq![
        PaintOpModel {
            area: crate::layout::spec_title_row(block),
            text: "Disk "@ + spec_dec(i),
            align: Align::Left,
            color: None,
        },
    ] + (if lrows.len() > 0 {
        spec_label_value_ops("Mount Point: "@, disks.disk_mnt_pts@[i]@, lrows[0], rrows[0])
    } else {
        Seq::empty()
    }) + (if lrows.len() > 1 {
        spec_label_value_ops("Name: "@, disks.disk_names@[i]@, lrows[1], rrows[1])
    } else {
        Seq::empty()
    }) + (if lrows.len() > 2 {
        spec_label_colored_ops("Usage: "@, disks.disk_usages@[i] as int, lrows[2], rrows[2])
    } else {
        Seq::empty()
    }) + (if lrows.len() > 3 {
        spec_label_value_ops("Filesystem: "@, disks.disk_filesystems@[i]@, lrows[3], rrows[3])
    } else {
        Seq::empty()
    }) + (if lrows.len() > 4 {
        spec_label_value_ops("Kind: "@, disks.disk_kinds@[i]@, lrows[4], rrows[4])
    } else {
        Seq::empty()
    })
}

/// Ops of the first `k` disk blocks, in disk order.
pub open spec fn spec_disk_blocks_ops(
    disks: crate::model::DisksStats,
    blocks: Seq<Rect>,
    k: int,
) -> Seq<PaintOpModel>
    decreases k,
{
    if k <= 0 {
        Seq::empty()
    } else {
        spec_disk_blocks_ops(disks, blocks, k - 1) + spec_disk_block_ops(disks, blocks, k - 1)
    }
}

/// The whole disks section: one block per disk, as many as the layout
/// granted blocks; with no disks the section paints nothing.
pub open spec fn spec_disk_section_ops(disks: crate::model::DisksStats, blocks: Seq<Rect>) -> Seq<
    PaintOpModel,
> {
    let k = if blocks.len() < disks.disk_names@.len() {
        blocks.len() as int
    } else {
        disks.disk_names@.len() as int
    };
    spec_disk_blocks_ops(disks, blocks, k)
}

fn draw_disk_block(
    disks: &crate::model::DisksStats,
    blocks: &Vec<Rect>,
    i: usize,
    ops: &mut Vec<PaintOp>,
)
    requires
        disks.wf(),
        i < blocks@.len(),
        i < disks.disk_names@.len(),
        crate::layout::rect_fits(blocks@[i as int]),
    ensures
        views_of(final(ops)@) == views_of(old(ops)@) + spec_disk_block_ops(*disks, blocks@, i as int),
{
    let block = blocks[i];
    let ghost base = ops@;
    let mut title = String::from_str("Disk ");
    let num = u64_to_string(i as u64);
    title.append(num.as_str());
    ops.push(
        PaintOp {
            area: crate::layout::title_row(block),
            text: title,
            align: Align::Left,
            color: None,
        },
    );
    proof {
        lemma_views_push(base, final(ops)@[base.len() as int]);
    }
    let inner_block = inner(block, 1, 1);
    let cols = columns(inner_block);
    let lcol = inner(cols.0, 1, 1);
    let rcol = inner(cols.1, 1, 1);
    let lrows = line_rows(lcol, 5);
    let rrows = line_rows(rcol, 5);
    proof {
        assert(lrows@.len() == rrows@.len());
    }
    if lrows.len() > 0 {
        render_label_value("Mount Point: ", disks.disk_mnt_pts[i].clone(), lrows[0], rrows[0], ops);
    }
    if lrows.len() > 1 {
        render_label_value("Name: ", disks.disk_names[i].clone(), lrows[1], rrows[1], ops);
    }
    if lrows.len() > 2 {
        render_label_colored("Usage: ", disks.disk_usages[i], lrows[2], rrows[2], ops);
    }
    if lrows.len() > 3 {
        render_label_value(
            "Filesystem: ",
            disks.disk_filesystems[i].clone(),
            lrows[3],
            rrows[3],
            ops,
        );
    }
    if lrows.len() > 4 {
        render_label_value("Kind: ", disks.disk_kinds[i].clone(), lrows[4], rrows[4], ops);
    }
    proof {
        assert(views_of(final(ops)@) =~= views_of(old(ops)@) + spec_disk_block_ops(
            *disks,
            blocks@,
            i as int,
        ));
    }
}

/// Paint the disks section: one titled block per disk with its mount
/// point, name, usage, filesystem and kind.
pub fn draw_disk_section(
    disks: &crate::model::DisksStats,
    blocks: &Vec<Rect>,
    ops: &mut Vec<PaintOp>,
)
    requires
        disks.wf(),
        forall|j: int| 0 <= j < blocks@.len() ==> crate::layout::rect_fits(#[trigger] blocks@[j]),
    ensures
        views_of(final(ops)@) == views_of(old(ops)@) + spec_disk_section_ops(*disks, blocks@),
{
    let k: usize = if blocks.len() < disks.disk_names.len() {
        blocks.len()
    } else {
        disks.disk_names.len()
    };
    let mut i: usize = 0;
    proof {
        assert(views_of(ops@) =~= views_of(old(ops)@) + spec_disk_blocks_ops(*disks, blocks@, 0));
    }
    while i < k
        invariant
            i <= k,
            disks.wf(),
            k <= blocks@.len(),
            k <= disks.disk_names@.len(),
            forall|j: int|
                0 <= j < blocks@.len() ==> crate::layout::rect_fits(#[trigger] blocks@[j]),
            views_of(ops@) == views_of(old(ops)@) + spec_disk_blocks_ops(*disks, blocks@, i as int),
        decreases k - i,
    {
        draw_disk_block(disks, blocks, i, ops);
        proof {
            assert(views_of(ops@) =~= views_of(old(ops)@) + spec_disk_blocks_ops(
                *disks,
                blocks@,
                i as int + 1,
            ));
        }
        i += 1;
    }
}


/// Width constraints of the six process-table columns: pid, name, memory,
/// CPU, uptime and effective ids, as shares of the table width.
pub open spec fn spec_table_constraints() -> Seq<crate::layout::Constraint> {
    seq![
        crate::layout::Constraint::Percentage(8),
        crate::layout::Constraint::Percentage(32),
        crate::layout::Constraint::Percentage(13),
        crate::layout::Constraint::Percentage(10),
        crate::layout::Constraint::Percentage(16),
        crate::layout::Constraint::Percentage(19),
    ]
}

/// The six column rectangles of one table row.
pub open spec fn spec_table_columns(row: Rect) -> Seq<Rect> {
    crate::layout::spec_split(
        row,
        crate::layout::Direction::Horizontal,
        spec_table_constraints(),
    )
}

/// Split one table row into the six columns.
pub fn table_columns(row: Rect) -> (cols: Vec<Rect>)
    requires
        crate::layout::rect_fits(row),
    ensures
        cols@ == spec_table_columns(row),
        cols@.len() == 6,
{
    let mut cs: Vec<crate::layout::Constraint> = Vec::new();
    cs.push(crate::layout::Constraint::Percentage(8));
    cs.push(crate::layout::Constraint::Percentage(32));
    cs.push(crate::layout::Constraint::Percentage(13));
    cs.push(crate::layout::Constraint::Percentage(10));
    cs.push(crate::layout::Constraint::Percentage(16));
    cs.push(crate::layout::Constraint::Percentage(19));
    proof {
        assert(cs@ =~= spec_table_constraints());
    }
    crate::layout::split(row, crate::layout::Direction::Horizontal, &cs)
}

/// One header cell: a column caption, left-aligned and painted yellow.
pub open spec fn spec_header_cell(area: Rect, text: Seq<char>) -> PaintOpModel {
    PaintOpModel { area: area, text: text, align: Align::Left, color: Some(TierColor::Yellow) }
}

/// One body cell of the process table: plain, left-aligned text.
pub open spec fn spec_table_cell(area: Rect, text: Seq<char>) -> PaintOpModel {
    PaintOpModel { area: area, text: text, align: Align::Left, color: None }
}

/// The table header: the six column captions across the header row.
pub open spec fn spec_header_ops(header: Rect) -> Seq<PaintOpModel> {
    let cols = spec_table_columns(header);
    seq![
        spec_header_cell(cols[0], "PID"@),
        spec_header_cell(cols[1], "Name"@),
        spec_header_cell(cols[2], "Mem (MB)"@),
        spec_header_cell(cols[3], "CPU"@),
        spec_header_cell(cols[4], "Uptime (s)"@),
        spec_header_cell(cols[5], "EUID/EGID"@),
    ]
}

/// One table row: the process's pid, name, memory in megabytes (two
/// decimals, no unit suffix), CPU percentage, uptime in seconds, and its
/// effective ids.
pub open spec fn spec_process_row_ops(p: crate::model::ProcessInfo, row: Rect) -> Seq<
    PaintOpModel,
> {
    let cols = spec_table_columns(row);
    seq![
        spec_table_cell(cols[0], spec_dec(p.pid as int)),
        spec_table_cell(cols[1], p.name@),
        spec_table_cell(cols[2], spec_centi(spec_round_to_centi(p.memory as int, 10_000))),
        spec_table_cell(cols[3], spec_percent_string(p.cpu as int)),
        spec_table_cell(cols[4], spec_dec(p.uptime as int)),
        spec_table_cell(cols[5], spec_ids_string(p.euid, p.egid)),
    ]
}

/// Ops of the first `k` process rows, in list order.
pub open spec fn spec_process_rows_ops(
    procs: Seq<crate::model::ProcessInfo>,
    rows: Seq<Rect>,
    k: int,
) -> Seq<PaintOpModel>
    decreases k,
{
    if k <= 0 {
        Seq::empty()
    } else {
        spec_process_rows_ops(procs, rows, k - 1) + spec_process_row_ops(procs[k - 1], rows[k - 1])
    }
}

/// The whole processes block: its title, the column headers, then one row
/// per process, clipped to the rows that fit the body.
pub open spec fn spec_processes_block_ops(
    procs: Seq<crate::model::ProcessInfo>,
    region: Rect,
    header: Rect,
    body: Rect,
) -> Seq<PaintOpModel> {
    let rows = spec_line_rows(body, procs.len() as int);
    seq![
        PaintOpModel {
            area: crate::layout::spec_title_row(region),
            text: "Processes"@,
            align: Align::Left,
            color: None,
        },
    ] + spec_header_ops(header) + spec_process_rows_ops(procs, rows, rows.len() as int)
}

fn push_header_cell(area: Rect, caption: &str, ops: &mut Vec<PaintOp>)
    ensures
        views_of(final(ops)@) == views_of(old(ops)@).push(spec_header_cell(area, caption@)),
{
    let ghost base = ops@;
    ops.push(
        PaintOp {
            area: area,
            text: String::from_str(caption),
            align: Align::Left,
            color: Some(TierColor::Yellow),
        },
    );
    proof {
        lemma_views_push(base, final(ops)@[base.len() as int]);
    }
}

fn draw_process_row(p: &crate::model::ProcessInfo, row: Rect, ops: &mut Vec<PaintOp>)
    requires
        crate::layout::rect_fits(row),
    ensures
        views_of(final(ops)@) == views_of(old(ops)@) + spec_process_row_ops(*p, row),
{
    let cols = table_columns(row);
    let ghost base = ops@;
    ops.push(
        PaintOp { area: cols[0], text: u64_to_string(p.pid), align: Align::Left, color: None },
    );
    proof {
        lemma_views_push(base, final(ops)@[base.len() as int]);
    }
    let ghost s1 = ops@;
    ops.push(PaintOp { area: cols[1], text: p.name.clone(), align: Align::Left, color: None });
    proof {
        lemma_views_push(s1, final(ops)@[s1.len() as int]);
    }
    let ghost s2 = ops@;
    ops.push(
        PaintOp {
            area: cols[2],
            text: format_centi(round_to_centi(p.memory, 10_000)),
            align: Align::Left,
            color: None,
        },
    );
    proof {
        lemma_views_push(s2, final(ops)@[s2.len() as int]);
    }
    let ghost s3 = ops@;
    ops.push(
        PaintOp { area: cols[3], text: format_percent(p.cpu), align: Align::Left, color: None },
    );
    proof {
        lemma_views_push(s3, final(ops)@[s3.len() as int]);
    }
    let ghost s4 = ops@;
    ops.push(
        PaintOp { area: cols[4], text: u64_to_string(p.uptime), align: Align::Left, color: None },
    );
    proof {
        lemma_views_push(s4, final(ops)@[s4.len() as int]);
    }
    let ghost s5 = ops@;
    ops.push(
        PaintOp {
            area: cols[5],
            text: format_ids(p.euid, p.egid),
            align: Align::Left,
            color: None,
        },
    );
    proof {
        lemma_views_push(s5, final(ops)@[s5.len() as int]);
        assert(views_of(final(ops)@) =~= views_of(old(ops)@) + spec_process_row_ops(*p, row));
    }
}

/// Paint the processes block: the title, the column headers, and one row
/// per process for as many rows as the body has lines.
pub fn create_processes_block(
    processes: &Vec<crate::model::ProcessInfo>,
    region: Rect,
    header: Rect,
    body: Rect,
    ops: &mut Vec<PaintOp>,
)
    requires
        crate::layout::rect_fits(region),
        crate::layout::rect_fits(header),
        crate::layout::rect_fits(body),
    ensures
        views_of(final(ops)@) == views_of(old(ops)@) + spec_processes_block_ops(
            processes@,
            region,
            header,
            body,
        ),
{
    let ghost base = ops@;
    ops.push(
        PaintOp {
            area: crate::layout::title_row(region),
            text: String::from_str("Processes"),
            align: Align::Left,
            color: None,
        },
    );
    proof {
        lemma_views_push(base, final(ops)@[base.len() as int]);
    }
    let hcols = table_columns(header);
    let ghost header_start = views_of(ops@);
    push_header_cell(hcols[0], "PID", ops);
    push_header_cell(hcols[1], "Name", ops);
    push_header_cell(hcols[2], "Mem (MB)", ops);
    push_header_cell(hcols[3], "CPU", ops);
    push_header_cell(hcols[4], "Uptime (s)", ops);
    push_header_cell(hcols[5], "EUID/EGID", ops);
    proof {
        assert(views_of(ops@) =~= header_start + spec_header_ops(header));
    }
    let rows = line_rows(body, processes.len());
    let k = rows.len();
    let mut i: usize = 0;
    proof {
        assert(views_of(ops@) =~= views_of(old(ops)@) + (seq![
            PaintOpModel {
                area: crate::layout::spec_title_row(region),
                text: "Processes"@,
                align: Align::Left,
                color: None,
            },
        ] + spec_header_ops(header) + spec_process_rows_ops(processes@, rows@, 0)));
    }
    while i < k
        invariant
            i <= k,
            k == rows@.len(),
            rows@ == spec_line_rows(body, processes@.len() as int),
            k <= processes@.len(),
            forall|j2: int|
                0 <= j2 < rows@.len() ==> crate::layout::rect_fits(#[trigger] rows@[j2]),
            views_of(ops@) == views_of(old(ops)@) + (seq![
                PaintOpModel {
                    area: crate::layout::spec_title_row(region),
                    text: "Processes"@,
                    align: Align::Left,
                    color: None,
                },
            ] + spec_header_ops(header) + spec_process_rows_ops(processes@, rows@, i as int)),
        decreases k - i,
    {
        draw_process_row(&processes[i], rows[i], ops);
        proof {
            assert(views_of(ops@) =~= views_of(old(ops)@) + (seq![
                PaintOpModel {
                    area: crate::layout::spec_title_row(region),
                    text: "Processes"@,
                    align: Align::Left,
                    color: None,
                },
            ] + spec_header_ops(header) + spec_process_rows_ops(processes@, rows@, i as int + 1)));
        }
        i += 1;
    }
    proof {
        assert(views_of(final(ops)@) =~= views_of(old(ops)@) + spec_processes_block_ops(
            processes@,
            region,
            header,
            body,
        ));
    }
}


/// The whole stats column: its title, then the CPU, memory, disks and
/// system sections in their bands.
pub open spec fn spec_stats_block_ops(
    stats: SystemStats,
    disks: crate::model::DisksStats,
    t: crate::layout::LayoutModel,
) -> Seq<PaintOpModel> {
    seq![
        PaintOpModel {
            area: crate::layout::spec_title_row(t.stats),
            text: "Stats"@,
            align: Align::Left,
            color: None,
        },
    ] + spec_cpu_section_ops(stats, t.cpu_global, t.cpu_core_rows) + spec_memory_section_ops(
        stats,
        t.memory_band,
    ) + spec_disk_section_ops(disks, t.disk_blocks) + spec_system_section_ops(
        stats,
        t.system_band,
    )
}

/// Paint the stats column of one frame.
pub fn create_stats_block(
    stats: &SystemStats,
    disks: &crate::model::DisksStats,
    tree: &crate::layout::LayoutTree,
    ops: &mut Vec<PaintOp>,
)
    requires
        stats.wf(),
        disks.wf(),
        crate::layout::rect_fits(tree.stats),
        crate::layout::rect_fits(tree.cpu_global),
        forall|j: int|
            0 <= j < tree.cpu_core_rows@.len() ==> crate::layout::rect_fits(
                #[trigger] tree.cpu_core_rows@[j],
            ),
        crate::layout::rect_fits(tree.memory_band),
        forall|j: int|
            0 <= j < tree.disk_blocks@.len() ==> crate::layout::rect_fits(
                #[trigger] tree.disk_blocks@[j],
            ),
        crate::layout::rect_fits(tree.system_band),
    ensures
        views_of(final(ops)@) == views_of(old(ops)@) + spec_stats_block_ops(
            *stats,
            *disks,
            tree@,
        ),
{
    let ghost base = ops@;
    ops.push(
        PaintOp {
            area: crate::layout::title_row(tree.stats),
            text: String::from_str("Stats"),
            align: Align::Left,
            color: None,
        },
    );
    proof {
        lemma_views_push(base, final(ops)@[base.len() as int]);
    }
    draw_cpu_section(stats, tree.cpu_global, &tree.cpu_core_rows, ops);
    draw_memory_section(stats, tree.memory_band, ops);
    draw_disk_section(disks, &tree.disk_blocks, ops);
    draw_system_section(stats, tree.system_band, ops);
    proof {
        assert(views_of(final(ops)@) =~= views_of(old(ops)@) + spec_stats_block_ops(
            *stats,
            *disks,
            tree@,
        ));
    }
}

/// Every paint instruction of one frame: the layout is computed from the
/// root rectangle and the snapshot's core and disk counts, then the stats
/// column and the processes block are rendered into it.
pub open spec fn spec_draw_ui(
    stats: SystemStats,
    disks: crate::model::DisksStats,
    procs: Seq<crate::model::ProcessInfo>,
    root: Rect,
) -> Seq<PaintOpModel> {
    let t = crate::layout::spec_compute_layout(
        root,
        stats.cpu_cores@.len() as int,
        disks.disk_names@.len() as int,
    );
    spec_stats_block_ops(stats, disks, t) + spec_processes_block_ops(
        procs,
        t.processes,
        t.process_header,
        t.process_body,
    )
}

/// Render one frame: compute the layout for the snapshot's item counts
/// and produce every paint instruction of the stats column and the
/// process table.
pub fn draw_ui(
    stats: &SystemStats,
    disks: &crate::model::DisksStats,
    processes: &Vec<crate::model::ProcessInfo>,
    root: Rect,
) -> (ops: Vec<PaintOp>)
    requires
        stats.wf(),
        disks.wf(),
        crate::layout::rect_fits(root),
    ensures
        views_of(ops@) == spec_draw_ui(*stats, *disks, processes@, root),
{
    let tree = crate::layout::compute_layout(root, stats.core_count(), disks.disk_count());
    let mut ops: Vec<PaintOp> = Vec::new();
    create_stats_block(stats, disks, &tree, &mut ops);
    create_processes_block(
        processes,
        tree.processes,
        tree.process_header,
        tree.process_body,
        &mut ops,
    );
    proof {
        assert(views_of(ops@) =~= spec_draw_ui(*stats, *disks, processes@, root));
    }
    ops
}

} // verus!
